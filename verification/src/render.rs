//! Turning captured prompt output into displayable text.

use vstd::prelude::*;

use crate::text::{chars_of, lossy_utf8, string_push, utf8_lossy};
use vstd::string::StringExecFns;

verus! {

/// ASCII letters end an escape sequence.
pub open spec fn is_ascii_letter(c: char) -> bool {
    ('a' <= c && c <= 'z') || ('A' <= c && c <= 'Z')
}

/// Characters that `strip_ansi` never lets through on their own.
pub open spec fn is_control_marker(c: char) -> bool {
    c == '\x1b' || c == '\x01' || c == '\x02'
}

/// What remains of `s` when it is scanned from the left, starting inside an
/// escape sequence when `in_escape` holds:
/// - inside an escape, every character is dropped, and an ASCII letter ends the escape;
/// - ESC starts an escape;
/// - a backslash directly followed by `[` or `]` (bash prompt brackets) is dropped with it;
/// - the readline markers SOH and STX are dropped;
/// - every other character is kept.
pub open spec fn strip_from(s: Seq<char>, in_escape: bool) -> Seq<char>
    decreases s.len(),
{
    if s.len() == 0 {
        Seq::empty()
    } else {
        let c = s[0];
        let rest = s.drop_first();
        if in_escape {
            strip_from(rest, !is_ascii_letter(c))
        } else if c == '\x1b' {
            strip_from(rest, true)
        } else if c == '\\' && rest.len() > 0 && (rest[0] == '[' || rest[0] == ']') {
            strip_from(rest.drop_first(), false)
        } else if c == '\x01' || c == '\x02' {
            strip_from(rest, false)
        } else {
            seq![c] + strip_from(rest, false)
        }
    }
}

/// The plain text of a prompt: `s` scanned from the left outside any escape.
pub open spec fn stripped(s: Seq<char>) -> Seq<char> {
    strip_from(s, false)
}

/// A stretch of text with nothing that `strip_ansi` treats specially:
/// no ESC, SOH or STX, and no backslash directly followed by `[` or `]`.
pub open spec fn is_plain(s: Seq<char>) -> bool {
    &&& forall|i: int| 0 <= i < s.len() ==> !is_control_marker(#[trigger] s[i])
    &&& forall|i: int|
        0 <= i < s.len() - 1 && #[trigger] s[i] == '\\' ==> s[i + 1] != '[' && s[i + 1] != ']'
}

/// Stripping never lets an escape, SOH or STX through, and never makes text longer.
pub proof fn lemma_strip_from_clean(s: Seq<char>, in_escape: bool)
    ensures
        strip_from(s, in_escape).len() <= s.len(),
        forall|i: int|
            0 <= i < strip_from(s, in_escape).len() ==> !is_control_marker(
                #[trigger] strip_from(s, in_escape)[i],
            ),
    decreases s.len(),
{
    if s.len() > 0 {
        let c = s[0];
        let rest = s.drop_first();
        lemma_strip_from_clean(rest, true);
        lemma_strip_from_clean(rest, false);
        lemma_strip_from_clean(rest, !is_ascii_letter(c));
        if rest.len() > 0 {
            lemma_strip_from_clean(rest.drop_first(), false);
        }
        if !in_escape && !is_control_marker(c) && !(c == '\\' && rest.len() > 0 && (rest[0] == '['
            || rest[0] == ']')) {
            let r = strip_from(rest, false);
            assert forall|i: int| 0 <= i < (seq![c] + r).len() implies !is_control_marker(
                #[trigger] (seq![c] + r)[i],
            ) by {
                if i > 0 {
                    assert((seq![c] + r)[i] == r[i - 1]);
                }
            }
        }
    }
}

/// The output of `strip_ansi` holds no ESC, SOH or STX, and is no longer than its input.
pub proof fn law_stripped_is_clean(s: Seq<char>)
    ensures
        stripped(s).len() <= s.len(),
        forall|i: int| 0 <= i < stripped(s).len() ==> !is_control_marker(#[trigger] stripped(s)[i]),
{
    lemma_strip_from_clean(s, false);
}

/// Plain text passes through `strip_ansi` unchanged.
pub proof fn law_plain_text_unchanged(s: Seq<char>)
    requires
        is_plain(s),
    ensures
        stripped(s) == s,
    decreases s.len(),
{
    if s.len() > 0 {
        let rest = s.drop_first();
        assert(is_plain(rest)) by {
            assert forall|i: int| 0 <= i < rest.len() implies !is_control_marker(#[trigger] rest[i]) by {
                assert(rest[i] == s[i + 1]);
            }
            assert forall|i: int|
                0 <= i < rest.len() - 1 && #[trigger] rest[i] == '\\' implies rest[i + 1] != '['
                && rest[i + 1] != ']' by {
                assert(rest[i] == s[i + 1]);
                assert(rest[i + 1] == s[i + 2]);
            }
        }
        law_plain_text_unchanged(rest);
        assert(!is_control_marker(s[0]));
        if rest.len() > 0 && s[0] == '\\' {
            assert(rest[0] == s[1]);
        }
        assert(seq![s[0]] + rest =~= s);
    }
}

fn is_letter(c: char) -> (b: bool)
    ensures
        b == is_ascii_letter(c),
{
    ('a' <= c && c <= 'z') || ('A' <= c && c <= 'Z')
}

/// Removes ANSI escape sequences, bash prompt brackets (`\[`, `\]`) and
/// readline markers (SOH, STX) from captured prompt output.
pub fn strip_ansi(input: &str) -> (out: String)
    ensures
        out@ == stripped(input@),
{
    let v = chars_of(input);
    let n = v.len();
    let mut out = String::new();
    let mut in_escape = false;
    let mut i: usize = 0;
    assert(v@.skip(0) =~= v@);
    while i < n
        invariant
            n == v@.len(),
            i <= n,
            v@ == input@,
            stripped(input@) == out@ + strip_from(v@.skip(i as int), in_escape),
        decreases n - i,
    {
        let c = v[i];
        let ghost rest = v@.skip(i as int);
        assert(rest[0] == c);
        assert(rest.drop_first() =~= v@.skip(i + 1));
        if in_escape {
            if is_letter(c) {
                in_escape = false;
            }
            i = i + 1;
        } else if c == '\x1b' {
            in_escape = true;
            i = i + 1;
        } else if c == '\\' && i + 1 < n && (v[i + 1] == '[' || v[i + 1] == ']') {
            assert(rest.drop_first()[0] == v@[i + 1]);
            assert(rest.drop_first().drop_first() =~= v@.skip(i + 2));
            i = i + 2;
        } else if c == '\x01' || c == '\x02' {
            i = i + 1;
        } else {
            let ghost before = out@;
            string_push(&mut out, c);
            assert(before + (seq![c] + strip_from(v@.skip(i + 1), false)) =~= out@ + strip_from(
                v@.skip(i + 1),
                false,
            ));
            i = i + 1;
        }
    }
    assert(v@.skip(n as int) =~= Seq::<char>::empty());
    assert(out@ + Seq::<char>::empty() =~= out@);
    out
}

/// The outcome of trying to preview a configuration with Starship.
#[derive(Debug, PartialEq, Eq)]
pub enum PreviewOutcome {
    /// `starship prompt` ran and printed this prompt.
    Prompt(String),
    /// The `starship` program could not be found.
    StarshipMissing,
    /// The preview failed for another reason, described by this text.
    Failed(String),
}

/// A preview outcome as the contracts see it.
pub enum PreviewOutcomeView {
    Prompt(Seq<char>),
    StarshipMissing,
    Failed(Seq<char>),
}

impl View for PreviewOutcome {
    type V = PreviewOutcomeView;

    open spec fn view(&self) -> PreviewOutcomeView {
        match self {
            PreviewOutcome::Prompt(s) => PreviewOutcomeView::Prompt(s@),
            PreviewOutcome::StarshipMissing => PreviewOutcomeView::StarshipMissing,
            PreviewOutcome::Failed(e) => PreviewOutcomeView::Failed(e@),
        }
    }
}

/// What a finished `starship prompt` run yields: its standard output when it
/// succeeded, else a failure quoting its standard error.
pub open spec fn starship_result(success: bool, stdout: Seq<u8>, stderr: Seq<u8>) -> PreviewOutcomeView {
    if success {
        PreviewOutcomeView::Prompt(lossy_utf8(stdout))
    } else {
        PreviewOutcomeView::Failed("`starship prompt` failed: "@ + lossy_utf8(stderr))
    }
}

/// Interprets a finished `starship prompt` run from its exit status and
/// captured output streams (each decoded as UTF-8 with invalid sequences replaced).
pub fn starship_outcome(success: bool, stdout: &[u8], stderr: &[u8]) -> (r: PreviewOutcome)
    ensures
        r@ == starship_result(success, stdout@, stderr@),
{
    if !success {
        let mut msg = String::from_str("`starship prompt` failed: ");
        let err = utf8_lossy(stderr);
        msg.append(err.as_str());
        return PreviewOutcome::Failed(msg);
    }
    PreviewOutcome::Prompt(utf8_lossy(stdout))
}

/// The environment variables, besides the configuration path and the working
/// directory, that a preview runs `starship prompt` with: the prompt is
/// rendered for bash, on a 256-colour terminal.
pub open spec fn prompt_variables() -> Seq<(Seq<char>, Seq<char>)> {
    seq![("STARSHIP_SHELL"@, "bash"@), ("TERM"@, "xterm-256color"@)]
}

/// The names and values of those environment variables.
pub fn prompt_environment() -> (vars: Vec<(String, String)>)
    ensures
        vars@.len() == prompt_variables().len(),
        forall|i: int|
            0 <= i < vars@.len() ==> (#[trigger] vars@[i]).0@ == prompt_variables()[i].0
                && vars@[i].1@ == prompt_variables()[i].1,
{
    vec![
        (String::from_str("STARSHIP_SHELL"), String::from_str("bash")),
        (String::from_str("TERM"), String::from_str("xterm-256color")),
    ]
}

} // verus!
