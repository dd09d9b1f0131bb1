use starship_manager::app::{App, Modal, Pane};
use starship_manager::event::{handle_key, Effect, KeyCode, KeyInput};
use starship_manager::profile::Profile;
use starship_manager::provider::InstallProvider;
use starship_manager::render::PreviewOutcome;
use std::path::PathBuf;

fn profile(name: &str, content: &str) -> Profile {
    Profile {
        name: name.to_string(),
        path: PathBuf::from(format!("{name}.toml")),
        content: content.to_string(),
    }
}

fn app_with(contents: &[(&str, &str)]) -> App {
    App::new(contents.iter().map(|(n, c)| profile(n, c)).collect())
}

fn key(code: KeyCode) -> KeyInput {
    KeyInput { code, ctrl: false }
}

fn ctrl(c: char) -> KeyInput {
    KeyInput { code: KeyCode::Char(c), ctrl: true }
}

fn editor_app(content: &str) -> App {
    let mut app = app_with(&[("p", content)]);
    app.focus = Pane::Editor;
    app
}

#[test]
fn new_without_profiles_shows_hint() {
    let app = App::new(Vec::new());
    assert!(!app.quit);
    assert_eq!(app.focus, Pane::Profiles);
    assert_eq!(app.selected, 0);
    assert_eq!(
        app.editor_content,
        "# No profiles found.\n# Add .toml files to your profiles directory.\n"
    );
    assert_eq!(app.preview_output, "");
    assert_eq!(app.status, "q:quit  Tab:switch pane  s:save  p:preview  a:apply  i:install  ?:help");
    assert!(matches!(app.modal, Modal::Closed));
}

#[test]
fn new_opens_first_profile() {
    let app = app_with(&[("alpha", "# alpha"), ("beta", "# beta")]);
    assert_eq!(app.editor_content, "# alpha");
    assert_eq!(app.editor_cursor, 0);
}

#[test]
fn tab_cycles_and_backtab_reverses() {
    let mut app = app_with(&[]);
    assert_eq!(handle_key(&mut app, key(KeyCode::Tab)), Effect::Continue);
    assert_eq!(app.focus, Pane::Editor);
    handle_key(&mut app, key(KeyCode::Tab));
    assert_eq!(app.focus, Pane::Preview);
    handle_key(&mut app, key(KeyCode::Tab));
    assert_eq!(app.focus, Pane::Profiles);
    handle_key(&mut app, key(KeyCode::BackTab));
    assert_eq!(app.focus, Pane::Preview);
    handle_key(&mut app, key(KeyCode::Tab));
    assert_eq!(app.focus, Pane::Profiles);
}

#[test]
fn q_quits_outside_editor_only() {
    let mut app = app_with(&[]);
    assert_eq!(handle_key(&mut app, key(KeyCode::Char('q'))), Effect::Quit);
    assert!(app.quit);

    let mut app = editor_app("x");
    assert_eq!(handle_key(&mut app, key(KeyCode::Char('q'))), Effect::Continue);
    assert!(!app.quit);
    assert_eq!(app.editor_content, "xq");
}

#[test]
fn ctrl_c_quits_everywhere() {
    let mut app = editor_app("x");
    assert_eq!(handle_key(&mut app, ctrl('c')), Effect::Quit);
    assert!(app.quit);
}

#[test]
fn esc_leaves_editor_then_quits() {
    let mut app = editor_app("x");
    assert_eq!(handle_key(&mut app, key(KeyCode::Esc)), Effect::Continue);
    assert_eq!(app.focus, Pane::Profiles);
    assert_eq!(handle_key(&mut app, key(KeyCode::Esc)), Effect::Quit);
    assert!(app.quit);
}

#[test]
fn open_modal_swallows_any_key() {
    let mut app = app_with(&[]);
    assert_eq!(handle_key(&mut app, key(KeyCode::Char('?'))), Effect::Continue);
    assert!(matches!(app.modal, Modal::Help));
    assert_eq!(handle_key(&mut app, key(KeyCode::Char('q'))), Effect::Continue);
    assert!(matches!(app.modal, Modal::Closed));
    assert!(!app.quit);
}

#[test]
fn save_valid_toml_updates_profile() {
    let mut app = app_with(&[("neon", "# old")]);
    app.editor_content = "[character]\nsymbol = \"λ\"".to_string();
    assert_eq!(handle_key(&mut app, key(KeyCode::Char('s'))), Effect::SaveProfile(0));
    assert_eq!(app.profiles[0].content, "[character]\nsymbol = \"λ\"");
    assert_eq!(app.status, "Saved: neon");
}

#[test]
fn save_invalid_toml_reports_error() {
    let mut app = app_with(&[("neon", "# old")]);
    app.editor_content = "[invalid toml !!!".to_string();
    assert_eq!(handle_key(&mut app, ctrl('s')), Effect::Continue);
    assert_eq!(app.profiles[0].content, "# old");
    let msg = starship_manager::config::validate_toml("[invalid toml !!!").unwrap_err();
    assert_eq!(app.status, format!("TOML error: {msg}"));
}

#[test]
fn save_without_profiles_does_nothing() {
    let mut app = app_with(&[]);
    assert_eq!(handle_key(&mut app, key(KeyCode::Char('s'))), Effect::Continue);
    assert_eq!(app.status, "q:quit  Tab:switch pane  s:save  p:preview  a:apply  i:install  ?:help");
}

#[test]
fn preview_apply_install_keys_ask_for_work() {
    let mut app = app_with(&[("a", "x")]);
    assert_eq!(handle_key(&mut app, key(KeyCode::Char('p'))), Effect::RefreshPreview);
    assert_eq!(app.status, "Preview refreshed.");
    assert_eq!(handle_key(&mut app, key(KeyCode::Char('a'))), Effect::ApplyProfile);
    assert_eq!(handle_key(&mut app, key(KeyCode::Char('i'))), Effect::Install);
    app.focus = Pane::Editor;
    assert_eq!(handle_key(&mut app, ctrl('p')), Effect::RefreshPreview);
    assert_eq!(handle_key(&mut app, ctrl('a')), Effect::Continue);
    assert_eq!(app.editor_content, "xa");
}

#[test]
fn arrows_move_selection_in_profile_list() {
    let mut app = app_with(&[("a", "# a"), ("b", "# b")]);
    assert_eq!(handle_key(&mut app, key(KeyCode::Up)), Effect::Continue);
    assert_eq!(app.selected, 0);
    assert_eq!(handle_key(&mut app, key(KeyCode::Char('j'))), Effect::RefreshPreview);
    assert_eq!(app.selected, 1);
    assert_eq!(app.editor_content, "# b");
    assert_eq!(handle_key(&mut app, key(KeyCode::Down)), Effect::Continue);
    assert_eq!(app.selected, 1);
    assert_eq!(handle_key(&mut app, key(KeyCode::Char('k'))), Effect::RefreshPreview);
    assert_eq!(app.selected, 0);
    assert_eq!(app.editor_content, "# a");
}

#[test]
fn editor_typing_and_cursor() {
    let mut app = editor_app("a\nb");
    handle_key(&mut app, key(KeyCode::Char('x')));
    assert_eq!(app.editor_content, "ax\nb");
    handle_key(&mut app, key(KeyCode::Down));
    assert_eq!(app.editor_cursor, 1);
    handle_key(&mut app, key(KeyCode::Down));
    assert_eq!(app.editor_cursor, 1);
    handle_key(&mut app, key(KeyCode::Char('y')));
    assert_eq!(app.editor_content, "ax\nby");
    handle_key(&mut app, key(KeyCode::Up));
    assert_eq!(app.editor_cursor, 0);
}

#[test]
fn editor_enter_and_backspace() {
    let mut app = editor_app("a\nb");
    handle_key(&mut app, key(KeyCode::Enter));
    assert_eq!(app.editor_cursor, 1);
    assert_eq!(app.editor_content, "a\n\nb");
    handle_key(&mut app, key(KeyCode::Backspace));
    assert_eq!(app.editor_content, "a\nb");
    assert_eq!(app.editor_cursor, 0);
    handle_key(&mut app, key(KeyCode::Backspace));
    assert_eq!(app.editor_content, "\nb");
}

#[test]
fn editor_on_empty_text() {
    let mut app = editor_app("");
    handle_key(&mut app, key(KeyCode::Backspace));
    assert_eq!(app.editor_content, "");
    handle_key(&mut app, key(KeyCode::Char('z')));
    assert_eq!(app.editor_content, "z");
    handle_key(&mut app, key(KeyCode::Backspace));
    assert_eq!(app.editor_content, "");
}

#[test]
fn enter_at_end_is_lost_when_rejoined() {
    // Joining drops a trailing empty line, as the original's lines()/join did.
    let mut app = editor_app("a");
    handle_key(&mut app, key(KeyCode::Enter));
    assert_eq!(app.editor_content, "a\n");
    assert_eq!(app.editor_cursor, 1);
    handle_key(&mut app, key(KeyCode::Char('b')));
    assert_eq!(app.editor_content, "ab");
}

#[test]
fn law_typing_then_backspace_restores() {
    for c in ['x', 'λ', ' ', '#'] {
        let mut app = editor_app("[a]\nk = 1\nz");
        app.editor_cursor = 1;
        handle_key(&mut app, key(KeyCode::Char(c)));
        handle_key(&mut app, key(KeyCode::Backspace));
        assert_eq!(app.editor_content, "[a]\nk = 1\nz");
        assert_eq!(app.editor_cursor, 1);
    }
}

#[test]
fn law_enter_then_backspace_restores() {
    let mut app = editor_app("one\ntwo\nthree");
    app.editor_cursor = 1;
    handle_key(&mut app, key(KeyCode::Enter));
    handle_key(&mut app, key(KeyCode::Backspace));
    assert_eq!(app.editor_content, "one\ntwo\nthree");
    assert_eq!(app.editor_cursor, 1);
}

#[test]
fn refresh_apply_install_update_state() {
    let mut app = app_with(&[("neon", "x")]);
    app.refresh_preview(PreviewOutcome::Prompt("\x1b[31mhello\x1b[0m world".to_string()));
    assert_eq!(app.preview_output, "hello world");
    app.refresh_preview(PreviewOutcome::Failed("boom".to_string()));
    assert_eq!(app.preview_output, "[preview error: boom]");
    app.refresh_preview(PreviewOutcome::StarshipMissing);
    assert_eq!(app.preview_output, "[preview error: `starship` was not found. Press 'i' to install it.]");
    app.apply_profile("/home/u/.config/starship.toml");
    assert_eq!(app.status, "Applied 'neon' → /home/u/.config/starship.toml");
    app.install_starship(Some((InstallProvider::Brew, Ok("installed".to_string()))));
    assert_eq!(app.status, "Installing via brew...");
    assert!(matches!(&app.modal, Modal::Install { output } if output == "installed"));
    app.install_starship(Some((InstallProvider::Script, Err("running install script".to_string()))));
    assert!(matches!(&app.modal, Modal::Install { output } if output == "Error: running install script"));
    app.install_starship(None);
    assert!(matches!(&app.modal, Modal::Install { output }
        if output == "No install provider detected (need winget, brew, or curl)."));
}

#[test]
fn select_profile_out_of_range_is_ignored() {
    let mut app = app_with(&[("a", "# a")]);
    app.editor_cursor = 3;
    app.select_profile(5);
    assert_eq!(app.selected, 0);
    assert_eq!(app.editor_cursor, 3);
    app.select_profile(0);
    assert_eq!(app.editor_cursor, 0);
}

#[test]
fn saved_text_is_reloaded_on_select() {
    let mut app = app_with(&[("a", "# a"), ("b", "# b")]);
    app.editor_content = "x = 1".to_string();
    assert_eq!(handle_key(&mut app, key(KeyCode::Char('s'))), Effect::SaveProfile(0));
    handle_key(&mut app, key(KeyCode::Down));
    assert_eq!(app.editor_content, "# b");
    handle_key(&mut app, key(KeyCode::Up));
    assert_eq!(app.editor_content, "x = 1");
}
