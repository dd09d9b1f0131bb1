//! Deciding what a key press does to the application state.

use vstd::prelude::*;

use crate::app::{
    after_save, after_select, save_target, App, AppView, Modal, ModalView, Pane,
};
use crate::text::{join_lines, join_with_newlines, lines_of, split_lines, string_pop, string_push, views};
use vstd::string::StringExecFns;

verus! {

/// The keys the application tells apart.
#[derive(Debug, Clone, Copy, PartialEq, Eq, Structural)]
pub enum KeyCode {
    Char(char),
    Up,
    Down,
    Esc,
    Tab,
    BackTab,
    Enter,
    Backspace,
    Other,
}

/// A key press: the key and whether Control was held.
#[derive(Debug, Clone, Copy, PartialEq, Eq, Structural)]
pub struct KeyInput {
    pub code: KeyCode,
    pub ctrl: bool,
}

/// What a key press does, given the state it arrives in.
#[derive(Debug, Clone, Copy, PartialEq, Eq, Structural)]
pub enum KeyAction {
    CloseModal,
    Quit,
    LeaveEditor,
    NextPane,
    PreviousPane,
    Save,
    RefreshPreview,
    Apply,
    Install,
    ShowHelp,
    SelectPrevious,
    SelectNext,
    CursorUp,
    CursorDown,
    InsertChar(char),
    InsertLine,
    DeleteBack,
    Ignore,
}

/// The outside work a key press asks of the caller.
#[derive(Debug, Clone, Copy, PartialEq, Eq, Structural)]
pub enum Effect {
    /// Nothing; keep running.
    Continue,
    /// Stop the application.
    Quit,
    /// Write the profile at this index to its file.
    SaveProfile(usize),
    /// Run Starship on the editor content and show the outcome.
    RefreshPreview,
    /// Write the editor content to the active Starship configuration.
    ApplyProfile,
    /// Detect a provider and run the install.
    Install,
}

/// The pane that Tab moves the focus to.
pub open spec fn next_pane(p: Pane) -> Pane {
    match p {
        Pane::Profiles => Pane::Editor,
        Pane::Editor => Pane::Preview,
        Pane::Preview => Pane::Profiles,
    }
}

/// The pane that Shift+Tab moves the focus to.
pub open spec fn previous_pane(p: Pane) -> Pane {
    match p {
        Pane::Profiles => Pane::Preview,
        Pane::Editor => Pane::Profiles,
        Pane::Preview => Pane::Editor,
    }
}

/// The key bindings. An open modal swallows any key. Ctrl+C always quits;
/// the single-letter commands (q, s, p, a, i, ?) work outside the editor, and
/// Ctrl+S, Ctrl+P everywhere; Up/k and Down/j move the selection in the
/// profile list; in the editor, Up/Down move the cursor line, and characters,
/// Enter and Backspace edit the text.
pub open spec fn key_action(v: AppView, key: KeyInput) -> KeyAction {
    let editing = v.focus == Pane::Editor;
    let listing = v.focus == Pane::Profiles;
    let can_go_up = listing && v.selected > 0;
    let can_go_down = listing && v.selected + 1 < v.profiles.len();
    if !(v.modal is Closed) {
        KeyAction::CloseModal
    } else {
        match key.code {
            KeyCode::Char(c) => if c == 'c' && key.ctrl {
                KeyAction::Quit
            } else if (c == 'q' || c == 'Q') && !editing {
                KeyAction::Quit
            } else if c == 's' && (key.ctrl || !editing) {
                KeyAction::Save
            } else if c == 'p' && (key.ctrl || !editing) {
                KeyAction::RefreshPreview
            } else if c == 'a' && !editing {
                KeyAction::Apply
            } else if c == 'i' && !editing {
                KeyAction::Install
            } else if c == '?' && !editing {
                KeyAction::ShowHelp
            } else if c == 'k' && can_go_up {
                KeyAction::SelectPrevious
            } else if c == 'j' && can_go_down {
                KeyAction::SelectNext
            } else if editing {
                KeyAction::InsertChar(c)
            } else {
                KeyAction::Ignore
            },
            KeyCode::Esc => if editing {
                KeyAction::LeaveEditor
            } else {
                KeyAction::Quit
            },
            KeyCode::Tab => KeyAction::NextPane,
            KeyCode::BackTab => KeyAction::PreviousPane,
            KeyCode::Up => if can_go_up {
                KeyAction::SelectPrevious
            } else if editing && v.cursor > 0 {
                KeyAction::CursorUp
            } else {
                KeyAction::Ignore
            },
            KeyCode::Down => if can_go_down {
                KeyAction::SelectNext
            } else if editing {
                KeyAction::CursorDown
            } else {
                KeyAction::Ignore
            },
            KeyCode::Enter => if editing {
                KeyAction::InsertLine
            } else {
                KeyAction::Ignore
            },
            KeyCode::Backspace => if editing {
                KeyAction::DeleteBack
            } else {
                KeyAction::Ignore
            },
            KeyCode::Other => KeyAction::Ignore,
        }
    }
}

/// The smaller of two naturals.
pub open spec fn min_nat(a: nat, b: nat) -> nat {
    if a <= b {
        a
    } else {
        b
    }
}

/// The lines after typing `c` at the end of the cursor's line (the last line
/// when the cursor is past it; a first line when there is none).
pub open spec fn typed_lines(ls: Seq<Seq<char>>, cursor: nat, c: char) -> Seq<Seq<char>> {
    let base = if ls.len() == 0 {
        seq![Seq::<char>::empty()]
    } else {
        ls
    };
    let idx = min_nat(cursor, (base.len() - 1) as nat);
    base.update(idx as int, base[idx as int].push(c))
}

/// Typing a character appends it to the cursor's line.
pub open spec fn after_insert_char(v: AppView, c: char) -> AppView {
    AppView { editor: join_lines(typed_lines(lines_of(v.editor), v.cursor, c)), ..v }
}

/// Enter adds an empty line below the cursor's line (at the end when the cursor
/// is past it) and moves the cursor onto it.
pub open spec fn after_insert_line(v: AppView) -> AppView {
    let ls = lines_of(v.editor);
    let idx = min_nat(v.cursor + 1, ls.len());
    AppView { editor: join_lines(ls.insert(idx as int, Seq::empty())), cursor: idx, ..v }
}

/// Backspace removes the last character of the cursor's line; on an empty line
/// that is not the only one, it removes the line and moves the cursor up.
pub open spec fn after_delete_back(v: AppView) -> AppView {
    let ls = lines_of(v.editor);
    if ls.len() == 0 {
        v
    } else {
        let idx = min_nat(v.cursor, (ls.len() - 1) as nat);
        if ls[idx as int].len() > 0 {
            AppView {
                editor: join_lines(ls.update(idx as int, ls[idx as int].drop_last())),
                ..v
            }
        } else if ls.len() > 1 {
            AppView {
                editor: join_lines(ls.remove(idx as int)),
                cursor: if idx > 0 {
                    (idx - 1) as nat
                } else {
                    0
                },
                ..v
            }
        } else {
            AppView { editor: join_lines(ls), ..v }
        }
    }
}

/// Down moves the cursor one line further while there is a line below it.
pub open spec fn after_cursor_down(v: AppView) -> AppView {
    if v.cursor + 1 < lines_of(v.editor).len() {
        AppView { cursor: v.cursor + 1, ..v }
    } else {
        v
    }
}

/// What a key press does to the state, and the outside work it asks for.
pub open spec fn key_step(v: AppView, key: KeyInput) -> (AppView, Effect) {
    match key_action(v, key) {
        KeyAction::CloseModal => (AppView { modal: ModalView::Closed, ..v }, Effect::Continue),
        KeyAction::Quit => (AppView { quit: true, ..v }, Effect::Quit),
        KeyAction::LeaveEditor => (AppView { focus: Pane::Profiles, ..v }, Effect::Continue),
        KeyAction::NextPane => (AppView { focus: next_pane(v.focus), ..v }, Effect::Continue),
        KeyAction::PreviousPane => (
            AppView { focus: previous_pane(v.focus), ..v },
            Effect::Continue,
        ),
        KeyAction::Save => (
            after_save(v),
            match save_target(v) {
                Some(i) => Effect::SaveProfile(i as usize),
                None => Effect::Continue,
            },
        ),
        KeyAction::RefreshPreview => (
            AppView { status: "Preview refreshed."@, ..v },
            Effect::RefreshPreview,
        ),
        KeyAction::Apply => (v, Effect::ApplyProfile),
        KeyAction::Install => (v, Effect::Install),
        KeyAction::ShowHelp => (AppView { modal: ModalView::Help, ..v }, Effect::Continue),
        KeyAction::SelectPrevious => (
            after_select(v, (v.selected - 1) as nat),
            Effect::RefreshPreview,
        ),
        KeyAction::SelectNext => (after_select(v, v.selected + 1), Effect::RefreshPreview),
        KeyAction::CursorUp => (AppView { cursor: (v.cursor - 1) as nat, ..v }, Effect::Continue),
        KeyAction::CursorDown => (after_cursor_down(v), Effect::Continue),
        KeyAction::InsertChar(c) => (after_insert_char(v, c), Effect::Continue),
        KeyAction::InsertLine => (after_insert_line(v), Effect::Continue),
        KeyAction::DeleteBack => (after_delete_back(v), Effect::Continue),
        KeyAction::Ignore => (v, Effect::Continue),
    }
}

/// Works out what a key press does in the current state.
pub fn decide(app: &App, key: KeyInput) -> (a: KeyAction)
    ensures
        a == key_action(app@, key),
{
    let modal_open = match app.modal {
        Modal::Closed => false,
        _ => true,
    };
    if modal_open {
        return KeyAction::CloseModal;
    }
    let editing = app.focus == Pane::Editor;
    let listing = app.focus == Pane::Profiles;
    let can_go_up = listing && app.selected > 0;
    let can_go_down = listing && app.selected < app.profiles.len() && app.selected + 1
        < app.profiles.len();
    match key.code {
        KeyCode::Char(c) => {
            if c == 'c' && key.ctrl {
                KeyAction::Quit
            } else if (c == 'q' || c == 'Q') && !editing {
                KeyAction::Quit
            } else if c == 's' && (key.ctrl || !editing) {
                KeyAction::Save
            } else if c == 'p' && (key.ctrl || !editing) {
                KeyAction::RefreshPreview
            } else if c == 'a' && !editing {
                KeyAction::Apply
            } else if c == 'i' && !editing {
                KeyAction::Install
            } else if c == '?' && !editing {
                KeyAction::ShowHelp
            } else if c == 'k' && can_go_up {
                KeyAction::SelectPrevious
            } else if c == 'j' && can_go_down {
                KeyAction::SelectNext
            } else if editing {
                KeyAction::InsertChar(c)
            } else {
                KeyAction::Ignore
            }
        },
        KeyCode::Esc => {
            if editing {
                KeyAction::LeaveEditor
            } else {
                KeyAction::Quit
            }
        },
        KeyCode::Tab => KeyAction::NextPane,
        KeyCode::BackTab => KeyAction::PreviousPane,
        KeyCode::Up => {
            if can_go_up {
                KeyAction::SelectPrevious
            } else if editing && app.editor_cursor > 0 {
                KeyAction::CursorUp
            } else {
                KeyAction::Ignore
            }
        },
        KeyCode::Down => {
            if can_go_down {
                KeyAction::SelectNext
            } else if editing {
                KeyAction::CursorDown
            } else {
                KeyAction::Ignore
            }
        },
        KeyCode::Enter => {
            if editing {
                KeyAction::InsertLine
            } else {
                KeyAction::Ignore
            }
        },
        KeyCode::Backspace => {
            if editing {
                KeyAction::DeleteBack
            } else {
                KeyAction::Ignore
            }
        },
        KeyCode::Other => KeyAction::Ignore,
    }
}

impl App {
    fn insert_char(&mut self, c: char)
        ensures
            final(self)@ == after_insert_char(old(self)@, c),
    {
        let mut lines = split_lines(self.editor_content.as_str());
        if lines.len() == 0 {
            lines.push(String::new());
            assert(views(lines@) =~= seq![Seq::<char>::empty()]);
        }
        let ghost base = views(lines@);
        let n = lines.len();
        let idx = if self.editor_cursor < n - 1 {
            self.editor_cursor
        } else {
            n - 1
        };
        let mut line = lines.remove(idx);
        string_push(&mut line, c);
        lines.insert(idx, line);
        assert(views(lines@) =~= base.update(idx as int, base[idx as int].push(c)));
        self.editor_content = join_with_newlines(&lines);
    }

    fn insert_line(&mut self)
        ensures
            final(self)@ == after_insert_line(old(self)@),
    {
        let mut lines = split_lines(self.editor_content.as_str());
        let ghost base = views(lines@);
        let n = lines.len();
        let idx = if self.editor_cursor < n {
            self.editor_cursor + 1
        } else {
            n
        };
        lines.insert(idx, String::new());
        assert(views(lines@) =~= base.insert(idx as int, Seq::empty()));
        self.editor_cursor = idx;
        self.editor_content = join_with_newlines(&lines);
    }

    fn delete_back(&mut self)
        ensures
            final(self)@ == after_delete_back(old(self)@),
    {
        let mut lines = split_lines(self.editor_content.as_str());
        let ghost base = views(lines@);
        if lines.len() > 0 {
            let n = lines.len();
            let idx = if self.editor_cursor < n - 1 {
                self.editor_cursor
            } else {
                n - 1
            };
            let mut line = lines.remove(idx);
            let popped = string_pop(&mut line);
            lines.insert(idx, line);
            if popped.is_none() && lines.len() > 1 {
                assert(views(lines@) =~= base);
                lines.remove(idx);
                assert(views(lines@) =~= base.remove(idx as int));
                self.editor_cursor = if idx > 0 {
                    idx - 1
                } else {
                    0
                };
            } else if popped.is_none() {
                assert(views(lines@) =~= base);
            } else {
                assert(views(lines@) =~= base.update(idx as int, base[idx as int].drop_last()));
            }
            self.editor_content = join_with_newlines(&lines);
        }
    }

    fn cursor_down(&mut self)
        ensures
            final(self)@ == after_cursor_down(old(self)@),
    {
        let line_count = split_lines(self.editor_content.as_str()).len();
        if self.editor_cursor < line_count && self.editor_cursor + 1 < line_count {
            self.editor_cursor = self.editor_cursor + 1;
        }
    }
}

/// Update the application state for one key press, and report the outside
/// work the press asks for (saving a file, previewing, applying, installing)
/// or that the application should stop.
pub fn handle_key(app: &mut App, key: KeyInput) -> (effect: Effect)
    ensures
        final(app)@ == key_step(old(app)@, key).0,
        effect == key_step(old(app)@, key).1,
{
    match decide(app, key) {
        KeyAction::CloseModal => {
            app.modal = Modal::Closed;
            Effect::Continue
        },
        KeyAction::Quit => {
            app.quit = true;
            Effect::Quit
        },
        KeyAction::LeaveEditor => {
            app.focus = Pane::Profiles;
            Effect::Continue
        },
        KeyAction::NextPane => {
            app.focus = match app.focus {
                Pane::Profiles => Pane::Editor,
                Pane::Editor => Pane::Preview,
                Pane::Preview => Pane::Profiles,
            };
            Effect::Continue
        },
        KeyAction::PreviousPane => {
            app.focus = match app.focus {
                Pane::Profiles => Pane::Preview,
                Pane::Editor => Pane::Profiles,
                Pane::Preview => Pane::Editor,
            };
            Effect::Continue
        },
        KeyAction::Save => match app.save_profile() {
            Some(i) => Effect::SaveProfile(i),
            None => Effect::Continue,
        },
        KeyAction::RefreshPreview => {
            app.status = String::from_str("Preview refreshed.");
            Effect::RefreshPreview
        },
        KeyAction::Apply => Effect::ApplyProfile,
        KeyAction::Install => Effect::Install,
        KeyAction::ShowHelp => {
            app.modal = Modal::Help;
            Effect::Continue
        },
        KeyAction::SelectPrevious => {
            let idx = app.selected - 1;
            app.select_profile(idx);
            Effect::RefreshPreview
        },
        KeyAction::SelectNext => {
            let n = app.profiles.len();
            assert(app@.profiles.len() == n);
            let idx = app.selected + 1;
            app.select_profile(idx);
            Effect::RefreshPreview
        },
        KeyAction::CursorUp => {
            app.editor_cursor = app.editor_cursor - 1;
            Effect::Continue
        },
        KeyAction::CursorDown => {
            app.cursor_down();
            Effect::Continue
        },
        KeyAction::InsertChar(c) => {
            app.insert_char(c);
            Effect::Continue
        },
        KeyAction::InsertLine => {
            app.insert_line();
            Effect::Continue
        },
        KeyAction::DeleteBack => {
            app.delete_back();
            Effect::Continue
        },
        KeyAction::Ignore => Effect::Continue,
    }
}

} // verus!
