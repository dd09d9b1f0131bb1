//! Starship configuration profiles and the order they are listed in.

use vstd::prelude::*;

use crate::text::{chars_of, same_text};
use std::path::PathBuf;
use vstd::string::StringExecFns;

verus! {

/// File-system paths are carried through the library without being looked into.
#[verifier::external_type_specification]
#[verifier::external_body]
pub struct ExPathBuf(PathBuf);

/// A named Starship configuration profile.
#[derive(Debug)]
pub struct Profile {
    /// Display name (derived from filename without extension).
    pub name: String,
    /// Absolute path to the TOML file on disk.
    pub path: PathBuf,
    /// Raw TOML content.
    pub content: String,
}

/// A profile as the contracts see it.
pub struct ProfileView {
    pub name: Seq<char>,
    pub path: PathBuf,
    pub content: Seq<char>,
}

impl View for Profile {
    type V = ProfileView;

    open spec fn view(&self) -> ProfileView {
        ProfileView { name: self.name@, path: self.path, content: self.content@ }
    }
}

/// The name of a profile whose file has the given stem: the stem itself, or
/// "untitled" when the file name has none.
pub open spec fn name_for_stem(stem: Option<Seq<char>>) -> Seq<char> {
    match stem {
        Some(s) => s,
        None => "untitled"@,
    }
}

/// The display name of a profile loaded from a file with the given stem.
pub fn profile_name(stem: Option<String>) -> (name: String)
    ensures
        name@ == name_for_stem(
            match stem {
                Some(s) => Some(s@),
                None => None,
            },
        ),
{
    match stem {
        Some(s) => s,
        None => String::from_str("untitled"),
    }
}

/// Whether a file with the given extension holds a profile: only `.toml` files do.
pub fn is_toml_extension(ext: Option<&str>) -> (r: bool)
    ensures
        r == (ext matches Some(e) && e@ == "toml"@),
{
    match ext {
        Some(e) => same_text(e, "toml"),
        None => false,
    }
}

/// Whether `a` comes no later than `b` in the order of `String`'s `Ord`:
/// character by character, by code point (the order of their UTF-8 bytes),
/// a prefix before any longer text.
pub open spec fn text_le(a: Seq<char>, b: Seq<char>) -> bool
    decreases a.len(),
{
    if a.len() == 0 {
        true
    } else if b.len() == 0 {
        false
    } else if a[0] != b[0] {
        a[0] < b[0]
    } else {
        text_le(a.drop_first(), b.drop_first())
    }
}

/// Any two texts are ordered one way or the other.
pub proof fn lemma_text_le_total(a: Seq<char>, b: Seq<char>)
    ensures
        text_le(a, b) || text_le(b, a),
    decreases a.len(),
{
    if a.len() > 0 && b.len() > 0 && a[0] == b[0] {
        lemma_text_le_total(a.drop_first(), b.drop_first());
    }
}

/// The order is transitive.
pub proof fn lemma_text_le_transitive(a: Seq<char>, b: Seq<char>, c: Seq<char>)
    requires
        text_le(a, b),
        text_le(b, c),
    ensures
        text_le(a, c),
    decreases a.len(),
{
    if a.len() > 0 && b.len() > 0 && c.len() > 0 && a[0] == b[0] && b[0] == c[0] {
        lemma_text_le_transitive(a.drop_first(), b.drop_first(), c.drop_first());
    }
}

/// Compares two texts in the order of `String`'s `Ord`.
pub fn text_le_exec(a: &str, b: &str) -> (r: bool)
    ensures
        r == text_le(a@, b@),
{
    let x = chars_of(a);
    let y = chars_of(b);
    let mut i: usize = 0;
    assert(x@.skip(0) =~= x@);
    assert(y@.skip(0) =~= y@);
    while i < x.len() && i < y.len()
        invariant
            x@ == a@,
            y@ == b@,
            i <= x@.len(),
            i <= y@.len(),
            text_le(a@, b@) == text_le(x@.skip(i as int), y@.skip(i as int)),
        decreases x.len() - i,
    {
        let ghost xs = x@.skip(i as int);
        let ghost ys = y@.skip(i as int);
        assert(xs[0] == x@[i as int]);
        assert(ys[0] == y@[i as int]);
        if x[i] != y[i] {
            return x[i] < y[i];
        }
        assert(xs.drop_first() =~= x@.skip(i + 1));
        assert(ys.drop_first() =~= y@.skip(i + 1));
        i = i + 1;
    }
    i == x.len()
}

/// Every text comes no later than itself.
pub proof fn lemma_text_le_reflexive(a: Seq<char>)
    ensures
        text_le(a, a),
    decreases a.len(),
{
    if a.len() > 0 {
        lemma_text_le_reflexive(a.drop_first());
    }
}

/// Whether a profile is named `n`.
pub open spec fn has_name(n: Seq<char>) -> spec_fn(Profile) -> bool {
    |p: Profile| p.name@ == n
}

/// The profiles named `n`, in order.
pub open spec fn named(ps: Seq<Profile>, n: Seq<char>) -> Seq<Profile> {
    ps.filter(has_name(n))
}

proof fn lemma_named_none(s: Seq<Profile>, n: Seq<char>)
    requires
        forall|k: int| 0 <= k < s.len() ==> s[k].name@ != n,
    ensures
        named(s, n) == Seq::<Profile>::empty(),
    decreases s.len(),
{
    reveal(Seq::filter);
    if s.len() > 0 {
        lemma_named_none(s.drop_last(), n);
    }
}

/// Inserting `x` ahead of every other profile with its name puts it first among them.
proof fn lemma_named_insert(res: Seq<Profile>, j: int, x: Profile, n: Seq<char>)
    requires
        0 <= j <= res.len(),
        forall|k: int| 0 <= k < j ==> res[k].name@ != x.name@,
    ensures
        named(res.insert(j, x), n) == if x.name@ == n {
            seq![x] + named(res, n)
        } else {
            named(res, n)
        },
{
    let p = has_name(n);
    let a = res.take(j);
    let b = res.skip(j);
    assert(res.insert(j, x) =~= a + (seq![x] + b));
    assert(res =~= a + b);
    Seq::filter_distributes_over_add(a, seq![x] + b, p);
    Seq::filter_distributes_over_add(a, b, p);
    b.lemma_filter_prepend(x, p);
    if x.name@ == n {
        lemma_named_none(a, n);
        assert(Seq::<Profile>::empty() + (seq![x] + b.filter(p)) =~= seq![x] + (Seq::<Profile>::empty()
            + b.filter(p)));
    } else {
        assert(Seq::<Profile>::empty() + b.filter(p) =~= b.filter(p));
    }
}

/// Profiles ordered by name: each name comes no later than any name after it.
pub open spec fn sorted_by_name(ps: Seq<Profile>) -> bool {
    forall|i: int, j: int| 0 <= i < j < ps.len() ==> text_le(#[trigger] ps[i].name@, #[trigger] ps[j].name@)
}

/// Inserting `x` before the first element whose name does not come before `x`'s
/// keeps a sorted sequence sorted.
proof fn lemma_insert_sorted(s: Seq<Profile>, j: int, x: Profile)
    requires
        sorted_by_name(s),
        0 <= j <= s.len(),
        forall|k: int| 0 <= k < j ==> text_le(#[trigger] s[k].name@, x.name@),
        j < s.len() ==> text_le(x.name@, s[j].name@),
    ensures
        sorted_by_name(s.insert(j, x)),
{
    let t = s.insert(j, x);
    assert forall|a: int, b: int| 0 <= a < b < t.len() implies text_le(
        #[trigger] t[a].name@,
        #[trigger] t[b].name@,
    ) by {
        if a < j && b < j {
            assert(t[a] == s[a] && t[b] == s[b]);
        } else if a < j && b == j {
            assert(t[a] == s[a]);
        } else if a < j {
            assert(t[a] == s[a] && t[b] == s[b - 1]);
            lemma_text_le_transitive(s[a].name@, x.name@, s[j].name@);
            if b - 1 > j {
                lemma_text_le_transitive(s[a].name@, s[j].name@, s[b - 1].name@);
            }
        } else if a == j {
            assert(t[b] == s[b - 1]);
            if b - 1 > j {
                lemma_text_le_transitive(x.name@, s[j].name@, s[b - 1].name@);
            }
        } else {
            assert(t[a] == s[a - 1] && t[b] == s[b - 1]);
        }
    }
}

/// Orders profiles by name, as `list_profiles` lists them; profiles with equal
/// names keep their relative order.
pub fn sort_profiles(profiles: Vec<Profile>) -> (sorted: Vec<Profile>)
    ensures
        sorted@.to_multiset() == profiles@.to_multiset(),
        sorted_by_name(sorted@),
        forall|n: Seq<char>| #[trigger] named(sorted@, n) == named(profiles@, n),
{
    let ghost original = profiles@;
    let mut rest = profiles;
    let mut res: Vec<Profile> = Vec::new();
    let ghost mut taken: Seq<Profile> = Seq::empty();
    assert(rest@ + taken =~= original);
    while rest.len() > 0
        invariant
            rest@ + taken == original,
            res@.to_multiset() == taken.to_multiset(),
            sorted_by_name(res@),
            forall|n: Seq<char>| #[trigger] named(res@, n) == named(taken, n),
        decreases rest.len(),
    {
        let ghost before = rest@;
        let x = rest.pop().unwrap();
        let mut j: usize = 0;
        while j < res.len() && !text_le_exec(x.name.as_str(), res[j].name.as_str())
            invariant
                j <= res@.len(),
                forall|k: int| 0 <= k < j ==> text_le(#[trigger] res@[k].name@, x.name@),
                forall|k: int| 0 <= k < j ==> (#[trigger] res@[k]).name@ != x.name@,
            decreases res.len() - j,
        {
            proof {
                lemma_text_le_total(x.name@, res@[j as int].name@);
                lemma_text_le_reflexive(x.name@);
            }
            j = j + 1;
        }
        proof {
            lemma_insert_sorted(res@, j as int, x);
            assert(before =~= rest@.push(x));
            assert(seq![x] + taken =~= taken.insert(0, x));
            assert(rest@ + (seq![x] + taken) =~= original);
        }
        let ghost res_before = res@;
        res.insert(j, x);
        proof {
            vstd::seq_lib::to_multiset_insert(res_before, j as int, x);
            vstd::seq_lib::to_multiset_insert(taken, 0, x);
            assert forall|n: Seq<char>| #[trigger] named(res@, n) == named(seq![x] + taken, n) by {
                lemma_named_insert(res_before, j as int, x, n);
                taken.lemma_filter_prepend(x, has_name(n));
                if x.name@ != n {
                    assert(Seq::<Profile>::empty() + named(taken, n) =~= named(taken, n));
                }
            }
            taken = seq![x] + taken;
        }
    }
    assert(taken =~= original);
    res
}

/// A `.toml` file found in the profiles directory: its path as displayed, and
/// the profile read from it or why reading failed.
pub struct ProfileCandidate {
    pub path: String,
    pub loaded: Result<Profile, String>,
}

/// The profiles directory as listed: its profiles, and one warning per file
/// that could not be read.
pub struct ProfileListing {
    pub profiles: Vec<Profile>,
    pub warnings: Vec<String>,
}

/// The profiles that were read, in the order their files were found.
pub open spec fn loaded_profiles(cs: Seq<ProfileCandidate>) -> Seq<Profile>
    decreases cs.len(),
{
    if cs.len() == 0 {
        Seq::empty()
    } else {
        match cs[0].loaded {
            Ok(p) => seq![p] + loaded_profiles(cs.drop_first()),
            Err(_) => loaded_profiles(cs.drop_first()),
        }
    }
}

/// "Warning: skipping <path>: <reason>" for each file that could not be read, in order.
pub open spec fn skip_warnings(cs: Seq<ProfileCandidate>) -> Seq<Seq<char>>
    decreases cs.len(),
{
    if cs.len() == 0 {
        Seq::empty()
    } else {
        match cs[0].loaded {
            Ok(_) => skip_warnings(cs.drop_first()),
            Err(e) => seq!["Warning: skipping "@ + cs[0].path@ + ": "@ + e@] + skip_warnings(
                cs.drop_first(),
            ),
        }
    }
}

/// Keeps the profiles that were read, ordered by name, and a warning for each
/// file that was skipped.
pub fn select_profiles(candidates: Vec<ProfileCandidate>) -> (listing: ProfileListing)
    ensures
        listing.profiles@.to_multiset() == loaded_profiles(candidates@).to_multiset(),
        sorted_by_name(listing.profiles@),
        forall|n: Seq<char>| #[trigger] named(listing.profiles@, n) == named(loaded_profiles(candidates@), n),
        crate::text::views(listing.warnings@) == skip_warnings(candidates@),
{
    let ghost original = candidates@;
    let mut rest = candidates;
    let mut found: Vec<Profile> = Vec::new();
    let mut warnings: Vec<String> = Vec::new();
    assert(found@ + loaded_profiles(rest@) =~= loaded_profiles(original));
    assert(crate::text::views(warnings@) + skip_warnings(rest@) =~= skip_warnings(original));
    while rest.len() > 0
        invariant
            found@ + loaded_profiles(rest@) == loaded_profiles(original),
            crate::text::views(warnings@) + skip_warnings(rest@) == skip_warnings(original),
        decreases rest.len(),
    {
        let ghost before = rest@;
        let c = rest.remove(0);
        assert(rest@ =~= before.drop_first());
        match c.loaded {
            Ok(p) => {
                let ghost f = found@;
                found.push(p);
                assert(f + (seq![p] + loaded_profiles(rest@)) =~= found@ + loaded_profiles(rest@));
            },
            Err(e) => {
                let ghost w = crate::text::views(warnings@);
                let mut msg = String::from_str("Warning: skipping ");
                msg.append(c.path.as_str());
                msg.append(": ");
                msg.append(e.as_str());
                warnings.push(msg);
                assert(crate::text::views(warnings@) =~= w.push(msg@));
                assert(w + (seq![msg@] + skip_warnings(rest@)) =~= crate::text::views(warnings@)
                    + skip_warnings(rest@));
            },
        }
    }
    assert(found@ + Seq::<Profile>::empty() =~= found@);
    assert(crate::text::views(warnings@) + Seq::<Seq<char>>::empty() =~= crate::text::views(warnings@));
    ProfileListing { profiles: sort_profiles(found), warnings }
}

} // verus!
