//! Character-level helpers on strings.

use vstd::prelude::*;

verus! {

/// Appends one character to a string (`String::push`).
/// Trusted: the new text is the old text followed by `c`.
#[verifier::external_body]
pub fn string_push(s: &mut String, c: char)
    ensures
        final(s)@ == old(s)@.push(c),
{
    s.push(c);
}

/// Collects the characters of a string slice, in order.
pub fn chars_of(s: &str) -> (v: Vec<char>)
    ensures
        v@ == s@,
{
    let mut v: Vec<char> = Vec::new();
    for c in it: s.chars()
        invariant
            v@ == it.seq().take(it.index() as int),
            it.seq() == s@,
    {
        v.push(c);
    }
    v
}

/// Removes the last character of a string, if any (`String::pop`).
/// Trusted: on a non-empty string it returns the last character and drops it;
/// on an empty string it returns `None` and changes nothing.
#[verifier::external_body]
pub fn string_pop(s: &mut String) -> (r: Option<char>)
    ensures
        old(s)@.len() == 0 ==> r is None && final(s)@ == old(s)@,
        old(s)@.len() > 0 ==> r == Some(old(s)@.last()) && final(s)@ == old(s)@.drop_last(),
{
    s.pop()
}

/// The texts of a sequence of strings.
pub open spec fn views(v: Seq<String>) -> Seq<Seq<char>> {
    v.map_values(|l: String| l@)
}

/// A line with one trailing carriage return removed, if it has one.
pub open spec fn strip_cr(t: Seq<char>) -> Seq<char> {
    if t.len() > 0 && t.last() == '\r' {
        t.drop_last()
    } else {
        t
    }
}

/// The lines of `cur + s`, where `cur` is the start of a line already read:
/// a line ends at `\n` (a `\r` just before it is not part of the line), and
/// a string that ends with a line break has no empty line after it.
pub open spec fn lines_from(s: Seq<char>, cur: Seq<char>) -> Seq<Seq<char>>
    decreases s.len(),
{
    if s.len() == 0 {
        if cur.len() == 0 {
            Seq::empty()
        } else {
            seq![cur]
        }
    } else if s[0] == '\n' {
        seq![strip_cr(cur)] + lines_from(s.drop_first(), Seq::empty())
    } else {
        lines_from(s.drop_first(), cur.push(s[0]))
    }
}

/// The lines of a text, as `str::lines` yields them.
pub open spec fn lines_of(s: Seq<char>) -> Seq<Seq<char>> {
    lines_from(s, Seq::empty())
}

/// Lines joined with `\n` between them.
pub open spec fn join_lines(ls: Seq<Seq<char>>) -> Seq<char>
    decreases ls.len(),
{
    if ls.len() == 0 {
        Seq::empty()
    } else if ls.len() == 1 {
        ls[0]
    } else {
        join_lines(ls.drop_last()) + seq!['\n'] + ls.last()
    }
}

/// Splits a text into its lines, as `str::lines` does.
pub fn split_lines(s: &str) -> (ls: Vec<String>)
    ensures
        views(ls@) == lines_of(s@),
{
    let v = chars_of(s);
    let n = v.len();
    let mut out: Vec<String> = Vec::new();
    let mut cur = String::new();
    let mut i: usize = 0;
    assert(v@.skip(0) =~= v@);
    assert(views(out@) =~= Seq::<Seq<char>>::empty());
    while i < n
        invariant
            n == v@.len(),
            i <= n,
            v@ == s@,
            lines_of(s@) == views(out@) + lines_from(v@.skip(i as int), cur@),
        decreases n - i,
    {
        let c = v[i];
        let ghost rest = v@.skip(i as int);
        assert(rest[0] == c);
        assert(rest.drop_first() =~= v@.skip(i + 1));
        if c == '\n' {
            let ghost old_cur = cur@;
            let ghost before = out@;
            let last = string_pop(&mut cur);
            match last {
                Some(x) => {
                    if x != '\r' {
                        string_push(&mut cur, x);
                        assert(cur@ =~= old_cur);
                    }
                },
                None => {},
            }
            assert(cur@ == strip_cr(old_cur));
            out.push(cur);
            cur = String::new();
            assert(views(out@) =~= views(before) + seq![strip_cr(old_cur)]);
            assert(lines_from(rest, old_cur) == seq![strip_cr(old_cur)] + lines_from(
                v@.skip(i + 1),
                Seq::empty(),
            ));
            assert(views(before) + (seq![strip_cr(old_cur)] + lines_from(v@.skip(i + 1), cur@))
                =~= views(out@) + lines_from(v@.skip(i + 1), cur@));
        } else {
            string_push(&mut cur, c);
        }
        i = i + 1;
    }
    assert(v@.skip(n as int) =~= Seq::<char>::empty());
    if !cur.as_str().is_empty() {
        let ghost before = out@;
        out.push(cur);
        assert(views(out@) =~= views(before) + seq![cur@]);
    } else {
        assert(views(out@) + Seq::<Seq<char>>::empty() =~= views(out@));
    }
    out
}

/// Joins lines with `\n` between them.
pub fn join_with_newlines(ls: &Vec<String>) -> (s: String)
    ensures
        s@ == join_lines(views(ls@)),
{
    let n = ls.len();
    let mut out = String::new();
    if n == 0 {
        return out;
    }
    out.append(ls[0].as_str());
    let mut i: usize = 1;
    assert(views(ls@).take(1) =~= seq![ls@[0]@]);
    while i < n
        invariant
            n == ls@.len(),
            1 <= i <= n,
            out@ == join_lines(views(ls@).take(i as int)),
        decreases n - i,
    {
        string_push(&mut out, '\n');
        out.append(ls[i].as_str());
        let ghost t = views(ls@).take(i + 1);
        assert(t.drop_last() =~= views(ls@).take(i as int));
        assert(t.last() == ls@[i as int]@);
        i = i + 1;
    }
    assert(views(ls@).take(n as int) =~= views(ls@));
    out
}

/// What `String::from_utf8_lossy` makes of a byte sequence.
pub uninterp spec fn lossy_utf8(bytes: Seq<u8>) -> Seq<char>;

/// Decodes bytes as UTF-8, replacing invalid sequences (`String::from_utf8_lossy`).
/// Trusted: the result is `lossy_utf8` of the bytes, and for well-formed UTF-8
/// it is exactly the decoded text. What replaces ill-formed input is left unsaid.
#[verifier::external_body]
pub fn utf8_lossy(bytes: &[u8]) -> (s: String)
    ensures
        s@ == lossy_utf8(bytes@),
        vstd::utf8::valid_utf8(bytes@) ==> s@ == vstd::utf8::decode_utf8(bytes@),
{
    String::from_utf8_lossy(bytes).into_owned()
}

/// Whether two string slices hold the same text.
pub fn same_text(a: &str, b: &str) -> (r: bool)
    ensures
        r == (a@ == b@),
{
    let x = chars_of(a);
    let y = chars_of(b);
    if x.len() != y.len() {
        return false;
    }
    let mut i: usize = 0;
    while i < x.len()
        invariant
            x@ == a@,
            y@ == b@,
            x@.len() == y@.len(),
            i <= x@.len(),
            forall|j: int| 0 <= j < i ==> x@[j] == y@[j],
        decreases x.len() - i,
    {
        if x[i] != y[i] {
            return false;
        }
        i = i + 1;
    }
    assert(x@ =~= y@);
    true
}

/// Lines that survive being joined and split again: no line holds a line
/// break, no line but the last ends in a carriage return, and the last line is
/// not empty.
pub open spec fn lines_round_trip(ls: Seq<Seq<char>>) -> bool {
    &&& forall|i: int, j: int| 0 <= i < ls.len() && 0 <= j < ls[i].len() ==> #[trigger] ls[i][j] != '\n'
    &&& forall|i: int|
        0 <= i < ls.len() - 1 && #[trigger] ls[i].len() > 0 ==> ls[i].last() != '\r'
    &&& ls.len() > 0 ==> ls.last().len() > 0
}

/// A stretch without line breaks just extends the line being read.
pub proof fn lemma_lines_from_prefix(t: Seq<char>, s: Seq<char>, cur: Seq<char>)
    requires
        forall|j: int| 0 <= j < t.len() ==> t[j] != '\n',
    ensures
        lines_from(t + s, cur) == lines_from(s, cur + t),
    decreases t.len(),
{
    if t.len() == 0 {
        assert(t + s =~= s);
        assert(cur + t =~= cur);
    } else {
        let u = t + s;
        assert(u[0] == t[0]);
        assert(u.drop_first() =~= t.drop_first() + s);
        lemma_lines_from_prefix(t.drop_first(), s, cur.push(t[0]));
        assert(cur.push(t[0]) + t.drop_first() =~= cur + t);
    }
}

/// Joining splits off the first line and a line break.
pub proof fn lemma_join_first(ls: Seq<Seq<char>>)
    requires
        ls.len() >= 2,
    ensures
        join_lines(ls) == ls[0] + (seq!['\n'] + join_lines(ls.drop_first())),
    decreases ls.len(),
{
    if ls.len() == 2 {
        assert(ls.drop_last() =~= seq![ls[0]]);
        assert(ls.drop_first() =~= seq![ls[1]]);
        assert(join_lines(ls.drop_last()) == ls[0]);
        assert(join_lines(ls.drop_first()) == ls[1]);
        assert(ls.last() == ls[1]);
        assert(ls[0] + seq!['\n'] + ls[1] =~= ls[0] + (seq!['\n'] + ls[1]));
    } else {
        lemma_join_first(ls.drop_last());
        assert(ls.drop_last().drop_first() =~= ls.drop_first().drop_last());
        assert(ls.drop_first().last() == ls.last());
        assert(ls.drop_last()[0] == ls[0]);
        let a = ls[0];
        let b = join_lines(ls.drop_first().drop_last());
        assert(join_lines(ls.drop_last().drop_first()) == b);
        assert(join_lines(ls.drop_first()) == b + seq!['\n'] + ls.last());
        assert(a + (seq!['\n'] + b) + seq!['\n'] + ls.last() =~= a + (seq!['\n'] + (b + seq![
            '\n',
        ] + ls.last())));
    }
}

/// Well-formed lines come back unchanged when joined and split again.
pub proof fn lemma_lines_of_join(ls: Seq<Seq<char>>)
    requires
        lines_round_trip(ls),
    ensures
        lines_of(join_lines(ls)) == ls,
    decreases ls.len(),
{
    if ls.len() == 0 {
        assert(lines_of(Seq::<char>::empty()) =~= Seq::<Seq<char>>::empty());
    } else if ls.len() == 1 {
        let l = ls[0];
        assert forall|j: int| 0 <= j < l.len() implies l[j] != '\n' by {
            assert(ls[0][j] != '\n');
        }
        lemma_lines_from_prefix(l, Seq::empty(), Seq::empty());
        assert(l + Seq::<char>::empty() =~= l);
        assert(Seq::<char>::empty() + l =~= l);
        assert(seq![l] =~= ls);
    } else {
        let l = ls[0];
        let rest = ls.drop_first();
        lemma_join_first(ls);
        assert forall|j: int| 0 <= j < l.len() implies l[j] != '\n' by {
            assert(ls[0][j] != '\n');
        }
        assert(lines_round_trip(rest)) by {
            assert forall|i: int, j: int| 0 <= i < rest.len() && 0 <= j < rest[i].len() implies #[trigger] rest[i][j]
                != '\n' by {
                assert(rest[i] == ls[i + 1]);
            }
            assert forall|i: int| 0 <= i < rest.len() - 1 && #[trigger] rest[i].len() > 0 implies rest[i].last()
                != '\r' by {
                assert(rest[i] == ls[i + 1]);
            }
        }
        lemma_lines_of_join(rest);
        let tail = seq!['\n'] + join_lines(rest);
        lemma_lines_from_prefix(l, tail, Seq::empty());
        assert(Seq::<char>::empty() + l =~= l);
        assert(tail[0] == '\n');
        assert(tail.drop_first() =~= join_lines(rest));
        assert(ls[0].len() > 0 ==> ls[0].last() != '\r');
        assert(strip_cr(l) == l);
        assert(seq![l] + rest =~= ls);
    }
}

} // verus!
