//! Character-level searches on string slices, by position in characters.

use vstd::prelude::*;

verus! {

/// `i` is the first position at which `c` stands in `s`.
pub open spec fn first_at(s: Seq<char>, c: char, i: int) -> bool {
    &&& 0 <= i < s.len()
    &&& s[i] == c
    &&& forall|j: int| 0 <= j < i ==> s[j] != c
}

/// `i` is the last position at which `c` stands in `s`.
pub open spec fn last_at(s: Seq<char>, c: char, i: int) -> bool {
    &&& 0 <= i < s.len()
    &&& s[i] == c
    &&& forall|j: int| i < j < s.len() ==> s[j] != c
}

/// `pat` stands in `s` from position `k` on.
pub open spec fn matches_at(s: Seq<char>, pat: Seq<char>, k: int) -> bool {
    &&& 0 <= k
    &&& k + pat.len() <= s.len()
    &&& forall|j: int| 0 <= j < pat.len() ==> s[k + j] == #[trigger] pat[j]
}

/// `pat` stands somewhere in `s`.
pub open spec fn occurs_in(s: Seq<char>, pat: Seq<char>) -> bool {
    exists|k: int| matches_at(s, pat, k)
}

/// The first position of `c` in `s`, if it occurs at all.
pub fn find_char(s: &str, c: char) -> (found: Option<usize>)
    ensures
        match found {
            Some(i) => first_at(s@, c, i as int),
            None => forall|j: int| 0 <= j < s@.len() ==> s@[j] != c,
        },
{
    let n = s.unicode_len();
    let mut i: usize = 0;
    while i < n
        invariant
            n == s@.len(),
            i <= n,
            forall|j: int| 0 <= j < i ==> s@[j] != c,
        decreases n - i,
    {
        if s.get_char(i) == c {
            return Some(i);
        }
        i += 1;
    }
    None
}

/// `i` is the first position from `from` on at which `c` stands in `s`.
pub open spec fn next_at(s: Seq<char>, c: char, from: int, i: int) -> bool {
    &&& 0 <= from <= i < s.len()
    &&& s[i] == c
    &&& forall|j: int| from <= j < i ==> s[j] != c
}

/// The first position of `c` in `s` from position `from` on, if it occurs
/// there.
pub fn find_char_from(s: &str, c: char, from: usize) -> (found: Option<usize>)
    ensures
        match found {
            Some(i) => next_at(s@, c, from as int, i as int),
            None => forall|j: int| from <= j < s@.len() ==> s@[j] != c,
        },
{
    let n = s.unicode_len();
    let mut i: usize = from;
    while i < n
        invariant
            n == s@.len(),
            from <= i,
            forall|j: int| from <= j < i && j < n ==> s@[j] != c,
        decreases n - i,
    {
        if s.get_char(i) == c {
            return Some(i);
        }
        i += 1;
    }
    None
}

/// The first `end` characters of `s`, or all of `s` where it has fewer.
pub open spec fn head(s: Seq<char>, end: int) -> Seq<char> {
    if 0 <= end <= s.len() {
        s.subrange(0, end)
    } else {
        s
    }
}

/// The last position of `c` among the first `end` characters of `s`, if it
/// occurs there.
pub fn rfind_char(s: &str, c: char, end: usize) -> (found: Option<usize>)
    ensures
        match found {
            Some(i) => last_at(head(s@, end as int), c, i as int),
            None => forall|j: int| 0 <= j < head(s@, end as int).len() ==> head(s@, end as int)[j] != c,
        },
{
    let len = s.unicode_len();
    let stop = if end <= len {
        end
    } else {
        len
    };
    let mut i: usize = stop;
    while i > 0
        invariant
            i <= stop <= s@.len(),
            head(s@, end as int) == s@.subrange(0, stop as int),
            forall|j: int| i <= j < stop ==> s@[j] != c,
        decreases i,
    {
        i -= 1;
        if s.get_char(i) == c {
            return Some(i);
        }
    }
    None
}

/// Whether `pat` stands in `s` from position `k` on.
pub fn match_here(s: &str, pat: &str, k: usize) -> (hit: bool)
    ensures
        hit == matches_at(s@, pat@, k as int),
{
    let slen = s.unicode_len();
    let plen = pat.unicode_len();
    if k > slen || plen > slen - k {
        return false;
    }
    let mut j: usize = 0;
    while j < plen
        invariant
            slen == s@.len(),
            plen == pat@.len(),
            k + plen <= slen,
            j <= plen,
            forall|t: int| 0 <= t < j ==> s@[k + t] == #[trigger] pat@[t],
        decreases plen - j,
    {
        if s.get_char(k + j) != pat.get_char(j) {
            return false;
        }
        j += 1;
    }
    true
}

/// Whether `pat` stands somewhere among the first `end` characters of `s`.
pub fn occurs_before(s: &str, pat: &str, end: usize) -> (hit: bool)
    ensures
        hit == occurs_in(head(s@, end as int), pat@),
{
    let len = s.unicode_len();
    let stop = if end <= len {
        end
    } else {
        len
    };
    let plen = pat.unicode_len();
    let ghost front = s@.subrange(0, stop as int);
    if plen > stop {
        return false;
    }
    let mut k: usize = 0;
    while k <= stop - plen
        invariant
            plen == pat@.len(),
            plen <= stop <= s@.len(),
            front == s@.subrange(0, stop as int),
            front == head(s@, end as int),
            k <= stop - plen + 1,
            forall|t: int| 0 <= t < k ==> !matches_at(front, pat@, t),
        decreases stop - plen + 1 - k,
    {
        if match_here(s, pat, k) {
            proof {
                assert(matches_at(front, pat@, k as int)) by {
                    assert forall|j: int| 0 <= j < pat@.len() implies front[k + j]
                        == #[trigger] pat@[j] by {}
                }
            }
            return true;
        }
        proof {
            if matches_at(front, pat@, k as int) {
                assert forall|j: int| 0 <= j < pat@.len() implies s@[k + j]
                    == #[trigger] pat@[j] by {
                    assert(front[k + j] == pat@[j]);
                }
            }
        }
        k += 1;
    }
    false
}

/// Whether two slices hold the same characters.
pub fn str_equals(a: &str, b: &str) -> (same: bool)
    ensures
        same == (a@ == b@),
{
    let alen = a.unicode_len();
    let blen = b.unicode_len();
    if alen != blen {
        return false;
    }
    let hit = match_here(a, b, 0);
    proof {
        if hit {
            assert(a@ =~= b@) by {
                assert forall|j: int| 0 <= j < a@.len() implies a@[j] == b@[j] by {
                    assert(a@[0 + j] == b@[j]);
                }
            }
        }
    }
    hit
}

/// What follows `prefix` in `s`, where `s` begins with it.
pub fn strip_prefix<'a>(s: &'a str, prefix: &str) -> (rest: Option<&'a str>)
    ensures
        match rest {
            Some(r) => s@ == prefix@ + r@,
            None => !prefix@.is_prefix_of(s@),
        },
{
    let slen = s.unicode_len();
    let plen = prefix.unicode_len();
    if !match_here(s, prefix, 0) {
        proof {
            if prefix@.is_prefix_of(s@) {
                assert forall|j: int| 0 <= j < prefix@.len() implies s@[0 + j]
                    == #[trigger] prefix@[j] by {
                    assert(s@.subrange(0, prefix@.len() as int)[j] == s@[j]);
                }
            }
        }
        return None;
    }
    let r = s.substring_char(plen, slen);
    proof {
        assert(s@ =~= prefix@ + r@) by {
            assert forall|j: int| 0 <= j < s@.len() implies s@[j] == (prefix@ + r@)[j] by {
                if j < prefix@.len() {
                    assert(s@[0 + j] == prefix@[j]);
                }
            }
        }
    }
    Some(r)
}

} // verus!
