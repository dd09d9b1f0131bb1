//! What the panes of the screen show for a given application state.

use vstd::prelude::*;

use crate::app::{App, Pane};
use crate::text::{lines_of, split_lines, string_push};
use vstd::string::StringExecFns;

verus! {

/// The digit character for `d < 10`.
pub open spec fn digit_char(d: nat) -> char {
    ((48 + d) as u8) as char
}

/// The decimal representation of `n`, without leading zeros.
pub open spec fn decimal(n: nat) -> Seq<char>
    decreases n,
{
    if n < 10 {
        seq![digit_char(n)]
    } else {
        decimal(n / 10).push(digit_char(n % 10))
    }
}

/// `n` spaces.
pub open spec fn spaces(n: nat) -> Seq<char> {
    Seq::new(n, |i: int| ' ')
}

/// `s` right-aligned in a field of `width` characters (as `{:>width}` formats it).
pub open spec fn right_aligned(s: Seq<char>, width: nat) -> Seq<char> {
    if s.len() < width {
        spaces((width - s.len()) as nat) + s
    } else {
        s
    }
}

/// How editor line `i` (zero-based) is shown: its one-based number right-aligned
/// in three columns, a bar, and the line's text.
pub open spec fn numbered_line(i: nat, line: Seq<char>) -> Seq<char> {
    right_aligned(decimal(i + 1), 3) + " │ "@ + line
}

/// One line of the editor pane.
pub struct EditorLine {
    pub text: String,
    pub highlighted: bool,
}

/// One entry of the profile list.
pub struct ListEntry {
    pub name: String,
    pub highlighted: bool,
}

fn push_decimal(out: &mut String, n: usize)
    ensures
        final(out)@ == old(out)@ + decimal(n as nat),
    decreases n,
{
    if n >= 10 {
        push_decimal(out, n / 10);
    }
    let d = (n % 10) as u8;
    let ghost before = out@;
    string_push(out, (48u8 + d) as char);
    proof {
        if n >= 10 {
            assert(old(out)@ + decimal((n / 10) as nat) + seq![digit_char((n % 10) as nat)] =~= old(
                out,
            )@ + decimal(n as nat));
        } else {
            assert(old(out)@ + seq![digit_char(n as nat)] =~= old(out)@ + decimal(n as nat));
        }
    }
}

/// The text of editor line `i`: its number, a bar, and the line.
pub fn number_line(i: usize, line: &str) -> (s: String)
    requires
        i < usize::MAX,
    ensures
        s@ == numbered_line(i as nat, line@),
{
    let mut digits = String::new();
    push_decimal(&mut digits, i + 1);
    let mut s = String::new();
    let w = digits.as_str().unicode_len();
    let mut k = w;
    while k < 3
        invariant
            w <= k <= 3 || (w > 3 && k == w),
            s@ == spaces((k - w) as nat),
        decreases 3 - k,
    {
        string_push(&mut s, ' ');
        assert(s@ =~= spaces((k + 1 - w) as nat));
        k = k + 1;
    }
    proof {
        assert(digits@ == Seq::<char>::empty() + decimal((i + 1) as nat));
        if w >= 3 {
            assert(s@ =~= Seq::<char>::empty());
        }
    }
    s.append(digits.as_str());
    s.append(" │ ");
    s.append(line);
    proof {
        if w >= 3 {
            assert(s@ =~= decimal((i + 1) as nat) + " │ "@ + line@);
        } else {
            assert(s@ =~= spaces((3 - w) as nat) + decimal((i + 1) as nat) + " │ "@ + line@);
        }
    }
    s
}

/// The editor pane: every line of the editor text, numbered; the cursor's line
/// is highlighted while the editor has the focus.
pub fn editor_lines(app: &App) -> (out: Vec<EditorLine>)
    ensures
        out@.len() == lines_of(app.editor_content@).len(),
        forall|i: int|
            0 <= i < out@.len() ==> {
                &&& (#[trigger] out@[i]).text@ == numbered_line(
                    i as nat,
                    lines_of(app.editor_content@)[i],
                )
                &&& out@[i].highlighted == (i == app.editor_cursor && app.focus == Pane::Editor)
            },
{
    let lines = split_lines(app.editor_content.as_str());
    let mut out: Vec<EditorLine> = Vec::new();
    let mut i: usize = 0;
    while i < lines.len()
        invariant
            crate::text::views(lines@) == lines_of(app.editor_content@),
            i <= lines@.len(),
            out@.len() == i,
            forall|j: int|
                0 <= j < i ==> {
                    &&& (#[trigger] out@[j]).text@ == numbered_line(
                        j as nat,
                        lines_of(app.editor_content@)[j],
                    )
                    &&& out@[j].highlighted == (j == app.editor_cursor && app.focus == Pane::Editor)
                },
        decreases lines.len() - i,
    {
        let text = number_line(i, lines[i].as_str());
        let highlighted = i == app.editor_cursor && app.focus == Pane::Editor;
        out.push(EditorLine { text, highlighted });
        i = i + 1;
    }
    out
}

/// The profile pane: the profile names in order, the selected one highlighted.
pub fn profile_entries(app: &App) -> (out: Vec<ListEntry>)
    ensures
        out@.len() == app.profiles@.len(),
        forall|i: int|
            0 <= i < out@.len() ==> {
                &&& (#[trigger] out@[i]).name@ == app.profiles@[i].name@
                &&& out@[i].highlighted == (i == app.selected)
            },
{
    let mut out: Vec<ListEntry> = Vec::new();
    let mut i: usize = 0;
    while i < app.profiles.len()
        invariant
            i <= app.profiles@.len(),
            out@.len() == i,
            forall|j: int|
                0 <= j < i ==> {
                    &&& (#[trigger] out@[j]).name@ == app.profiles@[j].name@
                    &&& out@[j].highlighted == (j == app.selected)
                },
        decreases app.profiles.len() - i,
    {
        out.push(ListEntry { name: app.profiles[i].name.clone(), highlighted: i == app.selected });
        i = i + 1;
    }
    out
}

/// The text shown when there is no preview yet.
pub open spec fn no_preview_text() -> Seq<char> {
    "No preview available.\nPress 'p' to refresh or install starship."@
}

/// The preview pane: the preview text, or a hint while there is none.
pub fn preview_pane_text(app: &App) -> (s: String)
    ensures
        s@ == if app.preview_output@.len() == 0 {
            no_preview_text()
        } else {
            app.preview_output@
        },
{
    if app.preview_output.as_str().is_empty() {
        String::from_str("No preview available.\nPress 'p' to refresh or install starship.")
    } else {
        app.preview_output.clone()
    }
}

} // verus!
