//! Character-sequence utilities shared by the argument builder and the
//! placeholder substitution routine.

use vstd::prelude::*;

verus! {

/// Compares two string slices character by character.
pub fn str_eq(a: &str, b: &str) -> (r: bool)
    ensures
        r == (a@ == b@),
{
    let alen = a.unicode_len();
    let blen = b.unicode_len();
    if alen != blen {
        return false;
    }
    let mut i: usize = 0;
    while i < alen
        invariant
            alen == a@.len(),
            alen == b@.len(),
            i <= alen,
            forall|j: int| 0 <= j < i ==> a@[j] == b@[j],
        decreases alen - i,
    {
        if a.get_char(i) != b.get_char(i) {
            return false;
        }
        i += 1;
    }
    proof {
        assert(a@ =~= b@);
    }
    true
}

/// The leftmost-first, non-overlapping replacement of `pat` by `rep` in `s`:
/// scan left to right; at a match of `pat`, emit `rep` and continue after
/// the match; otherwise emit the character and move on. A substituted
/// replacement is never re-scanned. An empty pattern replaces nothing.
pub open spec fn spec_replace(s: Seq<char>, pat: Seq<char>, rep: Seq<char>) -> Seq<char>
    decreases s.len(),
{
    if pat.len() == 0 || s.len() < pat.len() {
        s
    } else if s.subrange(0, pat.len() as int) == pat {
        rep + spec_replace(s.skip(pat.len() as int), pat, rep)
    } else {
        seq![s[0]] + spec_replace(s.skip(1), pat, rep)
    }
}

/// Does `pat` occur anywhere in `s`?
pub open spec fn spec_occurs(s: Seq<char>, pat: Seq<char>) -> bool {
    exists|i: int| 0 <= i <= s.len() - pat.len() && #[trigger] s.subrange(i, i + pat.len()) == pat
}

/// Whether `pat` occurs in `text` starting at position `pos`.
fn matches_at(text: &str, pat: &str, pos: usize) -> (r: bool)
    requires
        pos + pat@.len() <= text@.len(),
        text@.len() <= usize::MAX,
    ensures
        r == (text@.subrange(pos as int, pos + pat@.len()) == pat@),
{
    let m = pat.unicode_len();
    let mut j: usize = 0;
    while j < m
        invariant
            m == pat@.len(),
            pos + m <= text@.len() <= usize::MAX,
            j <= m,
            forall|l: int| 0 <= l < j ==> text@[pos + l] == pat@[l],
        decreases m - j,
    {
        if text.get_char(pos + j) != pat.get_char(j) {
            proof {
                assert(text@.subrange(pos as int, pos + pat@.len())[j as int] == text@[pos + j]);
            }
            return false;
        }
        j += 1;
    }
    proof {
        assert(text@.subrange(pos as int, pos + pat@.len()) =~= pat@);
    }
    true
}

/// Replaces every occurrence of `pat` in `text` by `rep`, in a single
/// left-to-right pass: replacements are not re-scanned and matches do not
/// overlap.
#[verifier::loop_isolation(false)]
pub fn replace_all(text: &str, pat: &str, rep: &str) -> (result: String)
    requires
        pat@.len() > 0,
    ensures
        result@ == spec_replace(text@, pat@, rep@),
{
    let n = text.unicode_len();
    let m = pat.unicode_len();
    let mut out = String::new();
    let mut pos: usize = 0;
    proof {
        assert(text@.skip(0) =~= text@);
        assert(out@ + spec_replace(text@, pat@, rep@) =~= spec_replace(text@, pat@, rep@));
    }
    while m <= n - pos && pos < n
        invariant
            pos <= n,
            spec_replace(text@, pat@, rep@) == out@ + spec_replace(
                text@.skip(pos as int),
                pat@,
                rep@,
            ),
        decreases n - pos,
    {
        let ghost remaining = text@.skip(pos as int);
        let ghost emitted = out@;
        proof {
            assert(remaining.len() == n - pos);
            assert(remaining.len() >= m);
        }
        if matches_at(text, pat, pos) {
            proof {
                assert(remaining.subrange(0, m as int) =~= text@.subrange(
                    pos as int,
                    pos + m,
                ));
                assert(remaining.skip(m as int) =~= text@.skip(pos + m));
                assert(spec_replace(remaining, pat@, rep@) == rep@ + spec_replace(
                    text@.skip(pos + m),
                    pat@,
                    rep@,
                ));
            }
            out.append(rep);
            pos = pos + m;
            proof {
                assert(out@ + spec_replace(text@.skip(pos as int), pat@, rep@) =~= emitted
                    + spec_replace(remaining, pat@, rep@));
            }
        } else {
            proof {
                assert(remaining.subrange(0, m as int) =~= text@.subrange(
                    pos as int,
                    pos + m,
                ));
                assert(remaining.skip(1) =~= text@.skip(pos + 1));
                assert(remaining[0] == text@[pos as int]);
                assert(spec_replace(remaining, pat@, rep@) == seq![text@[pos as int]]
                    + spec_replace(text@.skip(pos + 1), pat@, rep@));
            }
            let piece = text.substring_char(pos, pos + 1);
            proof {
                assert(piece@ =~= seq![text@[pos as int]]);
            }
            out.append(piece);
            pos = pos + 1;
            proof {
                assert(out@ + spec_replace(text@.skip(pos as int), pat@, rep@) =~= emitted
                    + spec_replace(remaining, pat@, rep@));
            }
        }
    }
    let tail = text.substring_char(pos, n);
    proof {
        assert(tail@ =~= text@.skip(pos as int));
        assert(text@.skip(pos as int).len() < m || text@.skip(pos as int).len() == 0);
        assert(spec_replace(text@.skip(pos as int), pat@, rep@) == text@.skip(pos as int));
    }
    out.append(tail);
    out
}

/// Law: where the pattern does not occur in the text, replacement leaves
/// the text exactly as it was.
pub proof fn lemma_replace_absent(s: Seq<char>, pat: Seq<char>, rep: Seq<char>)
    requires
        pat.len() > 0,
        !spec_occurs(s, pat),
    ensures
        spec_replace(s, pat, rep) == s,
    decreases s.len(),
{
    if s.len() < pat.len() {
    } else {
        assert(s.subrange(0, pat.len() as int) != pat) by {
            if s.subrange(0, pat.len() as int) == pat {
                assert(s.subrange(0, 0 + pat.len() as int) == pat);
                assert(spec_occurs(s, pat));
            }
        }
        assert(!spec_occurs(s.skip(1), pat)) by {
            if spec_occurs(s.skip(1), pat) {
                let i = choose|i: int|
                    0 <= i <= s.skip(1).len() - pat.len() && #[trigger] s.skip(1).subrange(
                        i,
                        i + pat.len(),
                    ) == pat;
                assert(s.subrange(i + 1, i + 1 + pat.len()) =~= s.skip(1).subrange(
                    i,
                    i + pat.len(),
                ));
                assert(spec_occurs(s, pat));
            }
        }
        lemma_replace_absent(s.skip(1), pat, rep);
        assert(spec_replace(s, pat, rep) =~= s);
    }
}

/// The concatenation of `parts` with `sep` between consecutive parts.
pub open spec fn spec_join(parts: Seq<Seq<char>>, sep: Seq<char>) -> Seq<char>
    decreases parts.len(),
{
    if parts.len() == 0 {
        Seq::empty()
    } else if parts.len() == 1 {
        parts[0]
    } else {
        spec_join(parts.drop_last(), sep) + sep + parts.last()
    }
}

/// Joins the parts with the separator between consecutive parts.
#[verifier::loop_isolation(false)]
pub fn join_with(parts: &Vec<String>, sep: &str) -> (result: String)
    ensures
        result@ == spec_join(parts@.map_values(|s: String| s@), sep@),
{
    let ghost mapped = parts@.map_values(|s: String| s@);
    let mut out = String::new();
    let n = parts.len();
    let mut i: usize = 0;
    while i < n
        invariant
            i <= n,
            out@ == spec_join(mapped.take(i as int), sep@),
        decreases n - i,
    {
        if i > 0 {
            out.append(sep);
        }
        out.append(parts[i].as_str());
        proof {
            assert(mapped.take(i + 1).drop_last() =~= mapped.take(i as int));
            assert(mapped.take(i + 1).last() == mapped[i as int]);
            if i == 0 {
                assert(out@ =~= mapped[0]);
                assert(out@ == spec_join(mapped.take(1), sep@));
            }
        }
        i += 1;
    }
    proof {
        assert(mapped.take(n as int) =~= mapped);
    }
    out
}

/// Strips the 4-character verbatim prefix (`\\?\`) that path
/// canonicalization puts in front of Windows paths; on other platforms the
/// canonical path is kept as it is. A Windows canonical path shorter than
/// the prefix is refused rather than sliced out of range.
pub fn strip_verbatim_prefix(canonical: &str, windows: bool) -> (result: Option<String>)
    ensures
        !windows ==> (result matches Some(s) && s@ == canonical@),
        windows && canonical@.len() >= 4 ==> (result matches Some(s) && s@ == canonical@.skip(4)),
        windows && canonical@.len() < 4 ==> result is None,
{
    if !windows {
        Some(canonical.to_owned())
    } else {
        let n = canonical.unicode_len();
        if n >= 4 {
            let stripped = canonical.substring_char(4, n);
            proof {
                assert(stripped@ =~= canonical@.skip(4));
            }
            Some(stripped.to_owned())
        } else {
            None
        }
    }
}

} // verus!
