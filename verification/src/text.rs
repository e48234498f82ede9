//! Character-level text predicates: substring containment and white space.

use vstd::prelude::*;
use vstd::string::*;

verus! {

/// The needle `n` occurs in `h` starting at position `k`.
pub open spec fn matches_at(h: Seq<char>, n: Seq<char>, k: int) -> bool {
    &&& 0 <= k
    &&& k + n.len() <= h.len()
    &&& forall|j: int| 0 <= j < n.len() ==> h[k + j] == n[j]
}

/// `h` holds `n` as a contiguous substring (case-sensitive, exact).
pub open spec fn contains_seq(h: Seq<char>, n: Seq<char>) -> bool {
    exists|k: int| matches_at(h, n, k)
}

/// The Unicode white-space characters, the set that `str::trim` removes.
pub open spec fn is_space(c: char) -> bool {
    ||| c as u32 == 0x20
    ||| (0x9 <= c as u32 && c as u32 <= 0xd)
    ||| c as u32 == 0x85
    ||| c as u32 == 0xa0
    ||| c as u32 == 0x1680
    ||| (0x2000 <= c as u32 && c as u32 <= 0x200a)
    ||| c as u32 == 0x2028
    ||| c as u32 == 0x2029
    ||| c as u32 == 0x202f
    ||| c as u32 == 0x205f
    ||| c as u32 == 0x3000
}

/// Every character of `s` is white space; true of the empty sequence, so
/// this is exactly "trimming leaves nothing".
pub open spec fn all_space(s: Seq<char>) -> bool {
    forall|i: int| 0 <= i < s.len() ==> is_space(#[trigger] s[i])
}

fn char_is_space(c: char) -> (r: bool)
    ensures
        r == is_space(c),
{
    let u = c as u32;
    u == 0x20 || (0x9 <= u && u <= 0xd) || u == 0x85 || u == 0xa0 || u == 0x1680 || (0x2000 <= u
        && u <= 0x200a) || u == 0x2028 || u == 0x2029 || u == 0x202f || u == 0x205f || u == 0x3000
}

/// Does `s` trim to the empty string?
pub fn is_blank(s: &str) -> (r: bool)
    ensures
        r == all_space(s@),
{
    let l = s.unicode_len();
    let mut i: usize = 0;
    while i < l
        invariant
            i <= l,
            l == s@.len(),
            forall|t: int| 0 <= t < i ==> is_space(#[trigger] s@[t]),
        decreases l - i,
    {
        if !char_is_space(s.get_char(i)) {
            return false;
        }
        i += 1;
    }
    true
}

/// The characters of `n` stand in `h` at offset `k`.
fn matches_here(h: &str, n: &str, k: usize, nl: usize) -> (r: bool)
    requires
        nl == n@.len(),
        k + nl <= h@.len(),
        h@.len() <= usize::MAX,
    ensures
        r == matches_at(h@, n@, k as int),
{
    let mut j: usize = 0;
    while j < nl
        invariant
            j <= nl,
            nl == n@.len(),
            k + nl <= h@.len(),
            h@.len() <= usize::MAX,
            forall|t: int| 0 <= t < j ==> h@[k + t] == #[trigger] n@[t],
        decreases nl - j,
    {
        if h.get_char(k + j) != n.get_char(j) {
            assert(!matches_at(h@, n@, k as int));
            return false;
        }
        j += 1;
    }
    true
}

/// Substring search: does `h` contain `n`?
pub fn contains_str(h: &str, n: &str) -> (r: bool)
    ensures
        r == contains_seq(h@, n@),
{
    let hl = h.unicode_len();
    let nl = n.unicode_len();
    if nl == 0 {
        assert(matches_at(h@, n@, 0));
        return true;
    }
    if nl > hl {
        assert(forall|k: int| !matches_at(h@, n@, k));
        return false;
    }
    let mut i: usize = 0;
    while i <= hl - nl
        invariant
            hl == h@.len(),
            nl == n@.len(),
            0 < nl <= hl,
            i <= hl - nl + 1,
            forall|k: int| 0 <= k < i ==> !matches_at(h@, n@, k),
        decreases hl - nl + 1 - i,
    {
        if matches_here(h, n, i, nl) {
            assert(contains_seq(h@, n@)) by {
                assert(matches_at(h@, n@, i as int));
            }
            return true;
        }
        i += 1;
    }
    assert(forall|k: int| k > hl - nl ==> !matches_at(h@, n@, k));
    false
}

} // verus!
