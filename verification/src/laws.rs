//! Properties of the key bindings that hold over sequences of key presses.

use vstd::prelude::*;

use crate::app::{
    after_save, after_select, initial_view, save_target, selection_valid, AppView, ModalView, Pane,
};
use crate::config::toml_parse_error;
use crate::event::{key_step, next_pane, previous_pane, Effect, KeyCode, KeyInput};
use crate::profile::ProfileView;
use crate::text::{join_lines, lemma_lines_of_join, lines_of, lines_round_trip};

verus! {

/// A key press without Control.
pub open spec fn plain_key(code: KeyCode) -> KeyInput {
    KeyInput { code, ctrl: false }
}

/// Tab cycles the focus through the three panes: three presses come back to
/// where they started.
pub proof fn law_three_tabs_cycle(v: AppView)
    requires
        v.modal is Closed,
    ensures
        ({
            let t = plain_key(KeyCode::Tab);
            let v1 = key_step(v, t).0;
            let v2 = key_step(v1, t).0;
            key_step(v2, t).0 == v
        }),
{
    let t = plain_key(KeyCode::Tab);
    let v1 = key_step(v, t).0;
    let v2 = key_step(v1, t).0;
    assert(next_pane(next_pane(next_pane(v.focus))) == v.focus);
    assert(key_step(v2, t).0 =~= v);
}

/// Shift+Tab undoes Tab, and Tab undoes Shift+Tab.
pub proof fn law_backtab_undoes_tab(v: AppView)
    requires
        v.modal is Closed,
    ensures
        key_step(key_step(v, plain_key(KeyCode::Tab)).0, plain_key(KeyCode::BackTab)).0 == v,
        key_step(key_step(v, plain_key(KeyCode::BackTab)).0, plain_key(KeyCode::Tab)).0 == v,
{
    assert(previous_pane(next_pane(v.focus)) == v.focus);
    assert(next_pane(previous_pane(v.focus)) == v.focus);
    assert(key_step(key_step(v, plain_key(KeyCode::Tab)).0, plain_key(KeyCode::BackTab)).0 =~= v);
    assert(key_step(key_step(v, plain_key(KeyCode::BackTab)).0, plain_key(KeyCode::Tab)).0 =~= v);
}

/// While a modal is open, any key only closes it.
pub proof fn law_open_modal_swallows_key(v: AppView, key: KeyInput)
    requires
        !(v.modal is Closed),
    ensures
        key_step(v, key).0 == (AppView { modal: ModalView::Closed, ..v }),
        key_step(v, key).1 == Effect::Continue,
{
}

/// Ctrl+C quits from every pane when no modal is open.
pub proof fn law_ctrl_c_quits(v: AppView)
    requires
        v.modal is Closed,
    ensures
        key_step(v, KeyInput { code: KeyCode::Char('c'), ctrl: true }).1 == Effect::Quit,
        key_step(v, KeyInput { code: KeyCode::Char('c'), ctrl: true }).0.quit,
{
}

/// The selection always points at a profile (or at the start of an empty
/// list): the start state has it, and every key press keeps it.
pub proof fn law_selection_stays_valid(profiles: Seq<ProfileView>, v: AppView, key: KeyInput)
    requires
        selection_valid(v),
    ensures
        selection_valid(initial_view(profiles)),
        selection_valid(key_step(v, key).0),
{
}

/// Saving invalid TOML writes nothing and changes no profile: the status shows
/// the parser's message.
pub proof fn law_invalid_toml_is_not_saved(v: AppView, msg: Seq<char>)
    requires
        v.modal is Closed,
        v.focus != Pane::Editor,
        v.selected < v.profiles.len(),
        toml_parse_error(v.editor) == Some(msg),
    ensures
        key_step(v, plain_key(KeyCode::Char('s'))).1 == Effect::Continue,
        key_step(v, plain_key(KeyCode::Char('s'))).0.profiles == v.profiles,
        key_step(v, plain_key(KeyCode::Char('s'))).0.status == "TOML error: "@ + msg,
{
}

/// Saving valid TOML asks for the selected profile to be written, and selecting
/// that profile again brings back exactly the text that was saved.
pub proof fn law_saved_text_is_reloaded(v: AppView)
    requires
        v.selected < v.profiles.len(),
        toml_parse_error(v.editor) is None,
    ensures
        save_target(v) == Some(v.selected),
        after_select(after_save(v), v.selected).editor == v.editor,
        after_save(v).profiles[v.selected as int].content == v.editor,
{
}

/// In the editor, typing a character other than a line break and then pressing
/// Backspace gives back the text and cursor as they were, for any text made of
/// well-formed lines (see `lines_round_trip`).
pub proof fn law_backspace_undoes_typing(v: AppView, c: char, ls: Seq<Seq<char>>)
    requires
        v.modal is Closed,
        v.focus == Pane::Editor,
        c != '\n',
        c != '\r',
        lines_round_trip(ls),
        v.editor == join_lines(ls),
    ensures
        key_step(key_step(v, plain_key(KeyCode::Char(c))).0, plain_key(KeyCode::Backspace)).0 == v,
{
    lemma_lines_of_join(ls);
    let base = if ls.len() == 0 {
        seq![Seq::<char>::empty()]
    } else {
        ls
    };
    let idx = if v.cursor <= (base.len() - 1) as nat {
        v.cursor
    } else {
        (base.len() - 1) as nat
    };
    let typed = base.update(idx as int, base[idx as int].push(c));
    assert(lines_round_trip(typed)) by {
        assert forall|i: int, j: int| 0 <= i < typed.len() && 0 <= j < typed[i].len() implies #[trigger] typed[i][j]
            != '\n' by {
            if i == idx {
                if j < base[i].len() {
                    assert(typed[i][j] == base[i][j]);
                }
            }
        }
        assert forall|i: int| 0 <= i < typed.len() - 1 && #[trigger] typed[i].len() > 0 implies typed[i].last()
            != '\r' by {
            if i == idx {
                assert(typed[i].last() == c);
            }
        }
    }
    lemma_lines_of_join(typed);
    let v1 = key_step(v, plain_key(KeyCode::Char(c))).0;
    assert(v1.editor == join_lines(typed));
    assert(base[idx as int].push(c).drop_last() =~= base[idx as int]);
    assert(typed.update(idx as int, typed[idx as int].drop_last()) =~= base);
    if ls.len() == 0 {
        assert(join_lines(base) == Seq::<char>::empty());
    }
    assert(key_step(v1, plain_key(KeyCode::Backspace)).0 =~= v);
}

/// In the editor, Enter followed by Backspace gives back the text and cursor as
/// they were, when the cursor is above the last line of a text made of
/// well-formed lines.
pub proof fn law_backspace_undoes_new_line(v: AppView, ls: Seq<Seq<char>>)
    requires
        v.modal is Closed,
        v.focus == Pane::Editor,
        lines_round_trip(ls),
        v.editor == join_lines(ls),
        v.cursor + 1 < ls.len(),
    ensures
        key_step(key_step(v, plain_key(KeyCode::Enter)).0, plain_key(KeyCode::Backspace)).0 == v,
{
    lemma_lines_of_join(ls);
    let idx = v.cursor + 1;
    let grown = ls.insert(idx as int, Seq::empty());
    assert(lines_round_trip(grown)) by {
        assert forall|i: int, j: int| 0 <= i < grown.len() && 0 <= j < grown[i].len() implies #[trigger] grown[i][j]
            != '\n' by {
            if i < idx {
                assert(grown[i] == ls[i]);
            } else if i > idx {
                assert(grown[i] == ls[i - 1]);
            }
        }
        assert forall|i: int| 0 <= i < grown.len() - 1 && #[trigger] grown[i].len() > 0 implies grown[i].last()
            != '\r' by {
            if i < idx {
                assert(grown[i] == ls[i]);
            } else if i > idx {
                assert(grown[i] == ls[i - 1]);
            }
        }
        assert(grown.last() == ls.last());
    }
    lemma_lines_of_join(grown);
    let v1 = key_step(v, plain_key(KeyCode::Enter)).0;
    assert(v1.editor == join_lines(grown));
    assert(v1.cursor == idx);
    assert(grown.remove(idx as int) =~= ls);
    assert(key_step(v1, plain_key(KeyCode::Backspace)).0 =~= v);
}

/// In the editor, Down and then Up give back the cursor line when there is a
/// line below it.
pub proof fn law_up_undoes_down(v: AppView)
    requires
        v.modal is Closed,
        v.focus == Pane::Editor,
        v.cursor + 1 < lines_of(v.editor).len(),
    ensures
        key_step(key_step(v, plain_key(KeyCode::Down)).0, plain_key(KeyCode::Up)).0 == v,
{
    let v1 = key_step(v, plain_key(KeyCode::Down)).0;
    assert(v1.cursor == v.cursor + 1);
    assert(key_step(v1, plain_key(KeyCode::Up)).0 =~= v);
}

/// Ctrl+S and Ctrl+P work in every pane, the editor included; without Control,
/// `q` quits from every pane but the editor, where it is typed and quits nothing.
pub proof fn law_control_shortcuts_work_everywhere(v: AppView)
    requires
        v.modal is Closed,
    ensures
        key_step(v, KeyInput { code: KeyCode::Char('s'), ctrl: true }).0 == after_save(v),
        key_step(v, KeyInput { code: KeyCode::Char('p'), ctrl: true }).1 == Effect::RefreshPreview,
        v.focus != Pane::Editor ==> key_step(v, plain_key(KeyCode::Char('q'))).1 == Effect::Quit,
        v.focus == Pane::Editor ==> key_step(v, plain_key(KeyCode::Char('q'))).1 == Effect::Continue
            && key_step(v, plain_key(KeyCode::Char('q'))).0.quit == v.quit,
{
}

/// Outside the editor, the single-letter commands do what their keys say:
/// `p` asks for a preview refresh and reports it, `s` saves exactly as Ctrl+S
/// does (writing the selected profile when its TOML is valid), `a` asks for the
/// profile to be applied and `i` for an install without changing any state, and
/// `?` opens the help.
pub proof fn law_letter_commands_outside_editor(v: AppView)
    requires
        v.modal is Closed,
        v.focus != Pane::Editor,
    ensures
        key_step(v, plain_key(KeyCode::Char('p'))).1 == Effect::RefreshPreview,
        key_step(v, plain_key(KeyCode::Char('p'))).0.status == "Preview refreshed."@,
        key_step(v, plain_key(KeyCode::Char('s'))) == key_step(
            v,
            KeyInput { code: KeyCode::Char('s'), ctrl: true },
        ),
        v.selected < v.profiles.len() && toml_parse_error(v.editor) is None ==> key_step(
            v,
            plain_key(KeyCode::Char('s')),
        ).1 == Effect::SaveProfile(v.selected as usize),
        key_step(v, plain_key(KeyCode::Char('a'))) == (v, Effect::ApplyProfile),
        key_step(v, plain_key(KeyCode::Char('i'))) == (v, Effect::Install),
        key_step(v, plain_key(KeyCode::Char('?'))).0.modal == ModalView::Help,
        key_step(v, plain_key(KeyCode::Char('?'))).1 == Effect::Continue,
{
}

/// Saving touches only the selected profile: every other profile is left as it
/// was, the list keeps its length, and the selected profile keeps its name and
/// path while taking the editor text when the text is valid TOML.
pub proof fn law_save_touches_only_selected(v: AppView)
    ensures
        after_save(v).profiles.len() == v.profiles.len(),
        forall|j: int|
            0 <= j < v.profiles.len() && j != v.selected ==> #[trigger] after_save(v).profiles[j]
                == v.profiles[j],
        v.selected < v.profiles.len() ==> after_save(v).profiles[v.selected as int].name
            == v.profiles[v.selected as int].name && after_save(v).profiles[v.selected as int].path
            == v.profiles[v.selected as int].path,
        v.selected < v.profiles.len() && toml_parse_error(v.editor) is None ==> after_save(
            v,
        ).profiles[v.selected as int].content == v.editor,
        v.selected < v.profiles.len() && toml_parse_error(v.editor) is Some ==> after_save(v).profiles
            == v.profiles,
{
}

} // verus!
