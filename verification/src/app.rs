//! Application state of the profile manager and the updates made to it.

use vstd::prelude::*;

use crate::config::{toml_parse_error, validate_toml};
use crate::profile::{Profile, ProfileView};
use crate::provider::{provider_label, InstallProvider};
use crate::render::{strip_ansi, stripped, PreviewOutcome, PreviewOutcomeView};
use vstd::string::StringExecFns;

verus! {

/// The focus pane in the TUI.
#[derive(Debug, Clone, Copy, PartialEq, Eq, Structural)]
pub enum Pane {
    Profiles,
    Editor,
    Preview,
}

/// Modal overlay state.
#[derive(Debug, Clone)]
pub enum Modal {
    Closed,
    Install { output: String },
    Help,
}

/// A modal overlay as the contracts see it.
pub enum ModalView {
    Closed,
    Install(Seq<char>),
    Help,
}

impl View for Modal {
    type V = ModalView;

    open spec fn view(&self) -> ModalView {
        match self {
            Modal::Closed => ModalView::Closed,
            Modal::Install { output } => ModalView::Install(output@),
            Modal::Help => ModalView::Help,
        }
    }
}

/// Application state.
pub struct App {
    /// Whether the app should quit.
    pub quit: bool,
    /// Currently focused pane.
    pub focus: Pane,
    /// Loaded profiles.
    pub profiles: Vec<Profile>,
    /// Index of the selected profile in the list.
    pub selected: usize,
    /// Content of the editor pane (editable TOML).
    pub editor_content: String,
    /// Cursor line in the editor (zero-based).
    pub editor_cursor: usize,
    /// Preview output (ANSI-stripped prompt text).
    pub preview_output: String,
    /// Status bar message.
    pub status: String,
    /// Current modal overlay.
    pub modal: Modal,
}

/// The application state as the contracts see it.
#[verifier::ext_equal]
pub struct AppView {
    pub quit: bool,
    pub focus: Pane,
    pub profiles: Seq<ProfileView>,
    pub selected: nat,
    pub editor: Seq<char>,
    pub cursor: nat,
    pub preview: Seq<char>,
    pub status: Seq<char>,
    pub modal: ModalView,
}

impl View for App {
    type V = AppView;

    open spec fn view(&self) -> AppView {
        AppView {
            quit: self.quit,
            focus: self.focus,
            profiles: self.profiles@.map_values(|p: Profile| p@),
            selected: self.selected as nat,
            editor: self.editor_content@,
            cursor: self.editor_cursor as nat,
            preview: self.preview_output@,
            status: self.status@,
            modal: self.modal@,
        }
    }
}

/// The selection points at a profile, or at the start of an empty list.
pub open spec fn selection_valid(v: AppView) -> bool {
    v.selected < v.profiles.len() || v.selected == 0
}

/// The editor text shown when there is no profile to load.
pub open spec fn no_profiles_text() -> Seq<char> {
    "# No profiles found.\n# Add .toml files to your profiles directory.\n"@
}

/// The status bar text shown on start.
pub open spec fn key_help_line() -> Seq<char> {
    "q:quit  Tab:switch pane  s:save  p:preview  a:apply  i:install  ?:help"@
}

/// The state right after start with the given profiles: the first profile, if
/// any, is loaded into the editor; nothing is previewed yet.
pub open spec fn initial_view(profiles: Seq<ProfileView>) -> AppView {
    AppView {
        quit: false,
        focus: Pane::Profiles,
        profiles,
        selected: 0,
        editor: if profiles.len() > 0 {
            profiles[0].content
        } else {
            no_profiles_text()
        },
        cursor: 0,
        preview: Seq::empty(),
        status: key_help_line(),
        modal: ModalView::Closed,
    }
}

/// Selecting profile `idx` loads its content into the editor with the cursor on
/// the first line; an index past the list changes nothing.
pub open spec fn after_select(v: AppView, idx: nat) -> AppView {
    if idx < v.profiles.len() {
        AppView { selected: idx, editor: v.profiles[idx as int].content, cursor: 0, ..v }
    } else {
        v
    }
}

/// What the preview pane says when the `starship` program is not installed.
pub open spec fn starship_missing_text() -> Seq<char> {
    "[preview error: `starship` was not found. Press 'i' to install it.]"@
}

/// The preview pane text for the outcome of running Starship: the prompt with
/// its escapes stripped; a hint to press `i` when Starship is not installed;
/// otherwise the error in brackets.
pub open spec fn preview_text(outcome: PreviewOutcomeView) -> Seq<char> {
    match outcome {
        PreviewOutcomeView::Prompt(ansi) => stripped(ansi),
        PreviewOutcomeView::StarshipMissing => starship_missing_text(),
        PreviewOutcomeView::Failed(e) => "[preview error: "@ + e + "]"@,
    }
}

/// The profile that saving writes to disk: the selected one, when the editor
/// holds valid TOML.
pub open spec fn save_target(v: AppView) -> Option<nat> {
    if v.selected < v.profiles.len() && toml_parse_error(v.editor) is None {
        Some(v.selected)
    } else {
        None
    }
}

/// Saving: with a profile selected, invalid TOML only reports the parser's
/// message; valid TOML becomes the selected profile's content.
pub open spec fn after_save(v: AppView) -> AppView {
    if v.selected < v.profiles.len() {
        let p = v.profiles[v.selected as int];
        match toml_parse_error(v.editor) {
            Some(msg) => AppView { status: "TOML error: "@ + msg, ..v },
            None => AppView {
                profiles: v.profiles.update(
                    v.selected as int,
                    ProfileView { name: p.name, path: p.path, content: v.editor },
                ),
                status: "Saved: "@ + p.name,
                ..v
            },
        }
    } else {
        v
    }
}

/// After the editor content was written to `target`: the status names the
/// selected profile and the target, if a profile is selected.
pub open spec fn after_apply(v: AppView, target: Seq<char>) -> AppView {
    if v.selected < v.profiles.len() {
        AppView {
            status: "Applied '"@ + v.profiles[v.selected as int].name + "' → "@ + target,
            ..v
        }
    } else {
        v
    }
}

/// The install modal's text for the outcome of an install run.
pub open spec fn install_text(run: Result<Seq<char>, Seq<char>>) -> Seq<char> {
    match run {
        Ok(out) => out,
        Err(e) => "Error: "@ + e,
    }
}

/// After an install attempt: with a provider, the status names it and the
/// modal shows what the run reported; without one, the modal says so.
pub open spec fn after_install(
    v: AppView,
    attempt: Option<(InstallProvider, Result<Seq<char>, Seq<char>>)>,
) -> AppView {
    match attempt {
        Some((p, run)) => AppView {
            status: "Installing via "@ + provider_label(p) + "..."@,
            modal: ModalView::Install(install_text(run)),
            ..v
        },
        None => AppView {
            modal: ModalView::Install(
                "No install provider detected (need winget, brew, or curl)."@,
            ),
            ..v
        },
    }
}

/// The text of a `Result` of strings.
pub open spec fn result_view(r: Result<String, String>) -> Result<Seq<char>, Seq<char>> {
    match r {
        Ok(s) => Ok(s@),
        Err(e) => Err(e@),
    }
}

/// Builds the preview pane text for the outcome of running Starship.
pub fn render_preview(outcome: PreviewOutcome) -> (text: String)
    ensures
        text@ == preview_text(outcome@),
{
    match outcome {
        PreviewOutcome::Prompt(ansi) => strip_ansi(ansi.as_str()),
        PreviewOutcome::StarshipMissing => String::from_str(
            "[preview error: `starship` was not found. Press 'i' to install it.]",
        ),
        PreviewOutcome::Failed(e) => {
            let mut s = String::from_str("[preview error: ");
            s.append(e.as_str());
            s.append("]");
            s
        },
    }
}

impl App {
    /// Create the application state for the given profiles (already loaded and
    /// ordered); the first one, if any, is opened in the editor.
    pub fn new(profiles: Vec<Profile>) -> (app: App)
        ensures
            app@ == initial_view(profiles@.map_values(|p: Profile| p@)),
    {
        let editor_content = if profiles.len() > 0 {
            profiles[0].content.clone()
        } else {
            String::from_str("# No profiles found.\n# Add .toml files to your profiles directory.\n")
        };
        App {
            quit: false,
            focus: Pane::Profiles,
            profiles,
            selected: 0,
            editor_content,
            editor_cursor: 0,
            preview_output: String::new(),
            status: String::from_str(
                "q:quit  Tab:switch pane  s:save  p:preview  a:apply  i:install  ?:help",
            ),
            modal: Modal::Closed,
        }
    }

    /// Select a profile by index and load its content into the editor.
    /// The preview is refreshed by the caller.
    pub fn select_profile(&mut self, idx: usize)
        ensures
            final(self)@ == after_select(old(self)@, idx as nat),
    {
        if idx < self.profiles.len() {
            self.selected = idx;
            self.editor_content = self.profiles[idx].content.clone();
            self.editor_cursor = 0;
        }
    }

    /// Show the outcome of running Starship on the editor content in the preview pane.
    pub fn refresh_preview(&mut self, outcome: PreviewOutcome)
        ensures
            final(self)@ == (AppView { preview: preview_text(outcome@), ..old(self)@ }),
    {
        self.preview_output = render_preview(outcome);
    }

    /// Save editor content to the selected profile, after checking that it is
    /// valid TOML. Returns the index of the profile whose file must now be written.
    pub fn save_profile(&mut self) -> (saved: Option<usize>)
        ensures
            final(self)@ == after_save(old(self)@),
            saved matches Some(i) ==> save_target(old(self)@) == Some(i as nat),
            saved is None <==> save_target(old(self)@) is None,
    {
        if self.selected < self.profiles.len() {
            match validate_toml(self.editor_content.as_str()) {
                Err(msg) => {
                    let mut s = String::from_str("TOML error: ");
                    s.append(msg.as_str());
                    self.status = s;
                    None
                },
                Ok(()) => {
                    let idx = self.selected;
                    let ghost before = self.profiles@;
                    let mut p = self.profiles.remove(idx);
                    p.content = self.editor_content.clone();
                    let mut s = String::from_str("Saved: ");
                    s.append(p.name.as_str());
                    self.profiles.insert(idx, p);
                    self.status = s;
                    assert(self.profiles@.map_values(|p: Profile| p@) =~= before.map_values(
                        |p: Profile| p@,
                    ).update(
                        idx as int,
                        ProfileView {
                            name: before[idx as int].name@,
                            path: before[idx as int].path,
                            content: self.editor_content@,
                        },
                    ));
                    Some(idx)
                },
            }
        } else {
            None
        }
    }

    /// Record that the editor content was written to the active Starship
    /// configuration at `target` (its path as displayed).
    pub fn apply_profile(&mut self, target: &str)
        ensures
            final(self)@ == after_apply(old(self)@, target@),
    {
        if self.selected < self.profiles.len() {
            let mut s = String::from_str("Applied '");
            s.append(self.profiles[self.selected].name.as_str());
            s.append("' → ");
            s.append(target);
            self.status = s;
        }
    }

    /// Show the outcome of an install attempt: the provider used and what its
    /// run reported, or that no provider was found.
    pub fn install_starship(&mut self, attempt: Option<(InstallProvider, Result<String, String>)>)
        ensures
            final(self)@ == after_install(
                old(self)@,
                match attempt {
                    Some((p, run)) => Some((p, result_view(run))),
                    None => None,
                },
            ),
    {
        match attempt {
            Some((provider, run)) => {
                let mut s = String::from_str("Installing via ");
                s.append(provider.display_name().as_str());
                s.append("...");
                self.status = s;
                let output = match run {
                    Ok(out) => out,
                    Err(e) => {
                        let mut t = String::from_str("Error: ");
                        t.append(e.as_str());
                        t
                    },
                };
                self.modal = Modal::Install { output };
            },
            None => {
                self.modal = Modal::Install {
                    output: String::from_str(
                        "No install provider detected (need winget, brew, or curl).",
                    ),
                };
            },
        }
    }
}

} // verus!
