use starship_manager::app::{App, Pane};
use starship_manager::profile::Profile;
use starship_manager::view::{editor_lines, number_line, preview_pane_text, profile_entries};
use std::path::PathBuf;

fn app_with(contents: &[(&str, &str)]) -> App {
    App::new(
        contents
            .iter()
            .map(|(n, c)| Profile {
                name: n.to_string(),
                path: PathBuf::from(format!("{n}.toml")),
                content: c.to_string(),
            })
            .collect(),
    )
}

#[test]
fn number_line_matches_format() {
    for (i, line) in [(0usize, "x"), (8, ""), (9, "ten"), (98, "a"), (99, "b"), (999, "c"), (12344, "λ")] {
        assert_eq!(number_line(i, line), format!("{:>3} │ {}", i + 1, line));
    }
}

#[test]
fn editor_lines_highlight_cursor_in_editor() {
    let mut app = app_with(&[("p", "a\nb\nc")]);
    app.editor_cursor = 1;
    let shown = editor_lines(&app);
    assert_eq!(shown.len(), 3);
    assert_eq!(shown[1].text, "  2 │ b");
    assert!(shown.iter().all(|l| !l.highlighted));
    app.focus = Pane::Editor;
    let shown = editor_lines(&app);
    assert!(!shown[0].highlighted && shown[1].highlighted && !shown[2].highlighted);
}

#[test]
fn profile_entries_mark_selection() {
    let mut app = app_with(&[("a", ""), ("b", "")]);
    app.selected = 1;
    let entries = profile_entries(&app);
    assert_eq!(entries.len(), 2);
    assert_eq!(entries[0].name, "a");
    assert!(!entries[0].highlighted && entries[1].highlighted);
}

#[test]
fn preview_pane_hint_when_empty() {
    let mut app = app_with(&[]);
    assert_eq!(preview_pane_text(&app), "No preview available.\nPress 'p' to refresh or install starship.");
    app.preview_output = "❯ ".to_string();
    assert_eq!(preview_pane_text(&app), "❯ ");
}
