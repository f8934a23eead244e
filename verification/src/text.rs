//! Verified text utilities: searching, splitting and trimming over the
//! character sequences that version identifiers, tags and command output
//! are made of.

use vstd::prelude::*;
use vstd::string::StrSliceExecFns;
use vstd::string::StringExecFns;

verus! {

/// Index of the first occurrence of `c` in `v`, or `v.len()` when `c`
/// does not occur.
pub open spec fn char_index(v: Seq<char>, c: char) -> int
    decreases v.len(),
{
    if v.len() == 0 {
        0
    } else if v[0] == c {
        0
    } else {
        1 + char_index(v.drop_first(), c)
    }
}

/// `char_index` points at the first occurrence: nothing before it is `c`,
/// and it is `c` itself unless it is the length (no occurrence at all).
pub proof fn lemma_char_index(v: Seq<char>, c: char)
    ensures
        0 <= char_index(v, c) <= v.len(),
        char_index(v, c) < v.len() ==> v[char_index(v, c)] == c,
        forall|j: int| 0 <= j < char_index(v, c) ==> v[j] != c,
    decreases v.len(),
{
    if v.len() == 0 {
    } else if v[0] == c {
    } else {
        lemma_char_index(v.drop_first(), c);
        assert forall|j: int| 0 <= j < char_index(v, c) implies v[j] != c by {
            if j > 0 {
                assert(v.drop_first()[j - 1] != c);
            }
        }
    }
}

/// Any index with the first-occurrence properties is `char_index`.
pub proof fn lemma_char_index_unique(v: Seq<char>, c: char, k: int)
    requires
        0 <= k <= v.len(),
        forall|j: int| 0 <= j < k ==> v[j] != c,
        k < v.len() ==> v[k] == c,
    ensures
        char_index(v, c) == k,
{
    lemma_char_index(v, c);
    let f = char_index(v, c);
    if f < k {
        assert(v[f] != c);
        assert(v[f] == c);
    } else if k < f {
        assert(v[k] != c);
        assert(v[k] == c);
    }
}

/// First index `i >= from` with `s@[i] == c`, or `s@.len()` when there is
/// none; stated through `char_index` of the unsearched suffix.
pub fn find_from(s: &str, c: char, from: usize) -> (r: usize)
    requires
        from <= s@.len(),
    ensures
        from <= r <= s@.len(),
        r - from == char_index(s@.skip(from as int), c),
        r < s@.len() ==> s@[r as int] == c,
        forall|j: int| from <= j < r ==> s@[j] != c,
{
    let n = s.unicode_len();
    let mut i: usize = from;
    while i < n
        invariant
            from <= i <= n,
            n == s@.len(),
            forall|j: int| from <= j < i ==> s@[j] != c,
        decreases n - i,
    {
        if s.get_char(i) == c {
            proof {
                let v = s@.skip(from as int);
                assert forall|j: int| 0 <= j < i - from implies v[j] != c by {
                    assert(s@[from + j] != c);
                }
                assert(v[i - from] == s@[i as int]);
                lemma_char_index_unique(v, c, i - from);
            }
            return i;
        }
        i += 1;
    }
    proof {
        let v = s@.skip(from as int);
        assert forall|j: int| 0 <= j < n - from implies v[j] != c by {
            assert(s@[from + j] != c);
        }
        lemma_char_index_unique(v, c, n - from);
    }
    n
}

/// Character-wise string equality.
pub fn str_eq(a: &str, b: &str) -> (r: bool)
    ensures
        r == (a@ == b@),
{
    let an = a.unicode_len();
    let bn = b.unicode_len();
    if an != bn {
        return false;
    }
    let mut i: usize = 0;
    while i < an
        invariant
            0 <= i <= an,
            an == a@.len(),
            an == b@.len(),
            forall|j: int| 0 <= j < i ==> a@[j] == b@[j],
        decreases an - i,
    {
        if a.get_char(i) != b.get_char(i) {
            return false;
        }
        i += 1;
    }
    proof {
        assert(a@ =~= b@);
    }
    true
}

/// Whether `suffix` ends `v`.
pub open spec fn has_suffix(v: Seq<char>, suffix: Seq<char>) -> bool {
    suffix.len() <= v.len() && v.skip(v.len() - suffix.len()) == suffix
}

/// Character-wise suffix test.
pub fn ends_with_str(s: &str, suffix: &str) -> (r: bool)
    ensures
        r == has_suffix(s@, suffix@),
{
    let n = s.unicode_len();
    let m = suffix.unicode_len();
    if m > n {
        return false;
    }
    let mut i: usize = 0;
    while i < m
        invariant
            0 <= i <= m <= n,
            n == s@.len(),
            m == suffix@.len(),
            forall|j: int| 0 <= j < i ==> s@[n - m + j] == suffix@[j],
        decreases m - i,
    {
        if s.get_char(n - m + i) != suffix.get_char(i) {
            proof {
                assert(s@.skip(n - m) != suffix@) by {
                    assert(s@.skip(n - m)[i as int] == s@[n - m + i]);
                }
            }
            return false;
        }
        i += 1;
    }
    proof {
        assert(s@.skip(n - m) =~= suffix@);
    }
    true
}

/// The segments of `v` separated by `sep`, in order; an empty input is one
/// empty segment, and separators at the edges produce empty segments, as
/// with `str::split`.
pub open spec fn split_on(v: Seq<char>, sep: char) -> Seq<Seq<char>>
    decreases v.len(),
{
    let i = char_index(v, sep);
    if 0 <= i < v.len() {
        seq![v.take(i)] + split_on(v.skip(i + 1), sep)
    } else {
        seq![v]
    }
}

/// Split `s` at every occurrence of `sep`.
pub fn split_str(s: &str, sep: char) -> (r: Vec<String>)
    ensures
        r@.map_values(|t: String| t@) == split_on(s@, sep),
        r@.len() >= 1,
    decreases s@.len(),
{
    let n = s.unicode_len();
    let i: usize = find_from(s, sep, 0);
    proof {
        assert(s@.skip(0) =~= s@);
    }
    if i == n {
        let mut r: Vec<String> = Vec::new();
        r.push(String::from_str(s));
        proof {
            assert(r@.map_values(|t: String| t@) =~= split_on(s@, sep));
        }
        r
    } else {
        let head = s.substring_char(0, i);
        let tail = s.substring_char(i + 1, n);
        let mut r = split_str(tail, sep);
        r.insert(0, String::from_str(head));
        proof {
            assert(head@ =~= s@.take(i as int));
            assert(tail@ =~= s@.skip(i + 1));
            assert(r@.map_values(|t: String| t@) =~= split_on(s@, sep));
        }
        r
    }
}

/// An ASCII whitespace character: space, tab, carriage return or newline.
pub open spec fn is_ws_char(c: char) -> bool {
    c == ' ' || c == '\t' || c == '\r' || c == '\n'
}

/// `v` without its leading whitespace.
pub open spec fn trim_start_spec(v: Seq<char>) -> Seq<char>
    decreases v.len(),
{
    if v.len() > 0 && is_ws_char(v[0]) {
        trim_start_spec(v.drop_first())
    } else {
        v
    }
}

/// `v` without its trailing whitespace.
pub open spec fn trim_end_spec(v: Seq<char>) -> Seq<char>
    decreases v.len(),
{
    if v.len() > 0 && is_ws_char(v.last()) {
        trim_end_spec(v.drop_last())
    } else {
        v
    }
}

/// `v` without leading and trailing whitespace.
pub open spec fn trim_spec(v: Seq<char>) -> Seq<char> {
    trim_end_spec(trim_start_spec(v))
}

/// Whether `c` is an ASCII whitespace character.
fn is_ws(c: char) -> (r: bool)
    ensures
        r == is_ws_char(c),
{
    c == ' ' || c == '\t' || c == '\r' || c == '\n'
}

/// Strip leading and trailing ASCII whitespace.
pub fn trim_ws(s: &str) -> (r: String)
    ensures
        r@ == trim_spec(s@),
{
    let n = s.unicode_len();
    let mut start: usize = 0;
    proof {
        assert(s@.skip(0) =~= s@);
    }
    loop
        invariant
            0 <= start <= n,
            n == s@.len(),
            trim_start_spec(s@) == trim_start_spec(s@.skip(start as int)),
        ensures
            0 <= start <= n,
            trim_start_spec(s@) == s@.skip(start as int),
        decreases n - start,
    {
        if start == n {
            proof {
                assert(s@.skip(start as int) =~= Seq::<char>::empty());
            }
            break;
        }
        let c = s.get_char(start);
        if !is_ws(c) {
            break;
        }
        proof {
            assert(s@.skip(start as int).drop_first() =~= s@.skip(start + 1));
        }
        start += 1;
    }
    let mut end: usize = n;
    proof {
        assert(s@.skip(start as int).take(n - start) =~= s@.skip(start as int));
    }
    loop
        invariant
            start <= end <= n,
            n == s@.len(),
            trim_end_spec(s@.skip(start as int)) == trim_end_spec(
                s@.skip(start as int).take(end - start),
            ),
            trim_start_spec(s@) == s@.skip(start as int),
        ensures
            start <= end <= n,
            trim_end_spec(s@.skip(start as int)) == s@.subrange(start as int, end as int),
        decreases end - start,
    {
        if end == start {
            proof {
                assert(s@.skip(start as int).take(0) =~= Seq::<char>::empty());
                assert(s@.subrange(start as int, end as int) =~= Seq::<char>::empty());
            }
            break;
        }
        let c = s.get_char(end - 1);
        if !is_ws(c) {
            proof {
                assert(s@.skip(start as int).take(end - start).last() == s@[end - 1]);
                assert(s@.skip(start as int).take(end - start) =~= s@.subrange(
                    start as int,
                    end as int,
                ));
            }
            break;
        }
        proof {
            let w = s@.skip(start as int).take(end - start);
            assert(w.last() == s@[end - 1]);
            assert(w.drop_last() =~= s@.skip(start as int).take(end - start - 1));
        }
        end -= 1;
    }
    let t = s.substring_char(start, end);
    proof {
        assert(t@ =~= s@.subrange(start as int, end as int));
    }
    String::from_str(t)
}

} // verus!
