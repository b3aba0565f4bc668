//! Searching and trimming of character sequences.

use vstd::prelude::*;

verus! {

/// `pat` stands in `text` at index `i`.
pub open spec fn occurs_at(text: Seq<char>, pat: Seq<char>, i: int) -> bool {
    &&& 0 <= i
    &&& i + pat.len() <= text.len()
    &&& text.subrange(i, i + pat.len()) == pat
}

/// `pat` stands in `text` at index `i` and at no smaller index.
pub open spec fn is_first_occurrence(text: Seq<char>, pat: Seq<char>, i: int) -> bool {
    &&& occurs_at(text, pat, i)
    &&& forall|j: int| 0 <= j < i ==> !occurs_at(text, pat, j)
}

/// Index of the leftmost occurrence of `pat` in `text`, if there is one.
pub open spec fn first_occurrence(text: Seq<char>, pat: Seq<char>) -> Option<int> {
    if exists|i: int| occurs_at(text, pat, i) {
        Some(choose|i: int| is_first_occurrence(text, pat, i))
    } else {
        None
    }
}

/// A leftmost occurrence is the one `first_occurrence` names.
pub proof fn lemma_first_occurrence_unique(text: Seq<char>, pat: Seq<char>, i: int)
    requires
        is_first_occurrence(text, pat, i),
    ensures
        first_occurrence(text, pat) == Some(i),
{
    let k = choose|k: int| is_first_occurrence(text, pat, k);
    assert(occurs_at(text, pat, i));
    assert(is_first_occurrence(text, pat, k));
    if k < i {
        assert(!occurs_at(text, pat, k));
    }
    if i < k {
        assert(!occurs_at(text, pat, i));
    }
}

/// Where `pat` occurs at `i`, it has a leftmost occurrence at or before `i`.
pub proof fn lemma_leftmost_exists(text: Seq<char>, pat: Seq<char>, i: int) -> (k: int)
    requires
        occurs_at(text, pat, i),
    ensures
        0 <= k <= i,
        is_first_occurrence(text, pat, k),
    decreases i,
{
    if exists|j: int| 0 <= j < i && occurs_at(text, pat, j) {
        let j = choose|j: int| 0 <= j < i && occurs_at(text, pat, j);
        lemma_leftmost_exists(text, pat, j)
    } else {
        i
    }
}

/// What `first_occurrence` names is a leftmost occurrence, and it names one
/// wherever `pat` occurs at all.
pub proof fn lemma_first_occurrence(text: Seq<char>, pat: Seq<char>)
    ensures
        match first_occurrence(text, pat) {
            Some(k) => is_first_occurrence(text, pat, k),
            None => forall|i: int| !occurs_at(text, pat, i),
        },
{
    if exists|i: int| occurs_at(text, pat, i) {
        let i = choose|i: int| occurs_at(text, pat, i);
        let k = lemma_leftmost_exists(text, pat, i);
        lemma_first_occurrence_unique(text, pat, k);
    }
}

/// The characters of `s`, in order.
pub fn chars_of(s: &str) -> (v: Vec<char>)
    ensures
        v@ == s@,
{
    broadcast use vstd::string::group_string_axioms;

    let mut v: Vec<char> = Vec::new();
    for c in it: s.chars()
        invariant
            it.seq() == s@,
            v@ == s@.take(it.index()),
    {
        v.push(c);
        assert(s@.take(it.index() + 1) == s@.take(it.index()).push(s@[it.index()]));
    }
    assert(s@.take(s@.len() as int) == s@);
    v
}

/// An occurrence in the part of `text` from `from` on is an occurrence in
/// `text`, shifted by `from`.
pub proof fn lemma_occurs_at_skip(text: Seq<char>, pat: Seq<char>, from: int, k: int)
    requires
        0 <= from <= text.len(),
        0 <= k,
    ensures
        occurs_at(text.skip(from), pat, k) <==> occurs_at(text, pat, from + k),
{
    if k + pat.len() <= text.len() - from {
        assert(text.skip(from).subrange(k, k + pat.len()) =~= text.subrange(
            from + k,
            from + k + pat.len(),
        ));
    }
}

/// Tells whether `pat` stands in `text` at index `i`.
pub fn matches_at(text: &Vec<char>, pat: &Vec<char>, i: usize) -> (b: bool)
    ensures
        b == occurs_at(text@, pat@, i as int),
{
    let n: usize = text.len();
    let m: usize = pat.len();
    if i > n || n - i < m {
        return false;
    }
    let mut k: usize = 0;
    while k < m
        invariant
            n == text.len(),
            m == pat.len(),
            i + m <= n,
            k <= m,
            forall|j: int| 0 <= j < k ==> text@[i + j] == pat@[j],
        decreases m - k,
    {
        if text[i + k] != pat[k] {
            assert(text@.subrange(i as int, i + m)[k as int] != pat@[k as int]);
            return false;
        }
        k = k + 1;
    }
    assert(text@.subrange(i as int, i + m) =~= pat@);
    true
}

/// Finds the leftmost occurrence of `pat` in `text` at or after index `from`.
pub fn find(text: &Vec<char>, from: usize, pat: &Vec<char>) -> (r: Option<usize>)
    requires
        from <= text.len(),
    ensures
        match r {
            Some(i) => from <= i && i + pat.len() <= text.len() && first_occurrence(
                text@.skip(from as int),
                pat@,
            ) == Some(i - from),
            None => first_occurrence(text@.skip(from as int), pat@) is None,
        },
{
    let n: usize = text.len();
    let ghost rest = text@.skip(from as int);
    let mut i: usize = from;
    loop
        invariant
            n == text.len(),
            from <= i <= n,
            rest == text@.skip(from as int),
            forall|j: int| from <= j < i ==> !occurs_at(text@, pat@, j),
        ensures
            i == n,
            forall|j: int| from <= j <= n ==> !occurs_at(text@, pat@, j),
        decreases n - i,
    {
        if matches_at(text, pat, i) {
            proof {
                lemma_occurs_at_skip(text@, pat@, from as int, i - from);
                assert forall|k: int| 0 <= k < i - from implies !occurs_at(rest, pat@, k) by {
                    lemma_occurs_at_skip(text@, pat@, from as int, k);
                }
                lemma_first_occurrence_unique(rest, pat@, i - from);
            }
            return Some(i);
        }
        if i == n {
            break;
        }
        i = i + 1;
    }
    proof {
        assert forall|k: int| !occurs_at(rest, pat@, k) by {
            if 0 <= k && k + pat@.len() <= rest.len() {
                lemma_occurs_at_skip(text@, pat@, from as int, k);
            }
        }
    }
    None
}

/// Characters with the Unicode property White_Space.
pub open spec fn is_whitespace(c: char) -> bool {
    let n = c as u32;
    ||| 0x09 <= n <= 0x0D
    ||| n == 0x20
    ||| n == 0x85
    ||| n == 0xA0
    ||| n == 0x1680
    ||| 0x2000 <= n <= 0x200A
    ||| n == 0x2028
    ||| n == 0x2029
    ||| n == 0x202F
    ||| n == 0x205F
    ||| n == 0x3000
}

/// Tells whether `c` has the Unicode property White_Space.
pub fn whitespace(c: char) -> (b: bool)
    ensures
        b == is_whitespace(c),
{
    let n: u32 = c as u32;
    (0x09 <= n && n <= 0x0D) || n == 0x20 || n == 0x85 || n == 0xA0 || n == 0x1680 || (0x2000 <= n
        && n <= 0x200A) || n == 0x2028 || n == 0x2029 || n == 0x202F || n == 0x205F || n == 0x3000
}

/// `s` without its leading whitespace.
pub open spec fn trim_start(s: Seq<char>) -> Seq<char>
    decreases s.len(),
{
    if s.len() > 0 && is_whitespace(s[0]) {
        trim_start(s.skip(1))
    } else {
        s
    }
}

/// `s` without its trailing whitespace.
pub open spec fn trim_end(s: Seq<char>) -> Seq<char>
    decreases s.len(),
{
    if s.len() > 0 && is_whitespace(s.last()) {
        trim_end(s.drop_last())
    } else {
        s
    }
}

/// `s` without its leading and trailing whitespace.
pub open spec fn trim(s: Seq<char>) -> Seq<char> {
    trim_end(trim_start(s))
}

/// Bounds, within `lo..hi`, of what is left of `text[lo..hi]` once the
/// whitespace at both of its ends is removed.
pub fn trim_bounds(text: &Vec<char>, lo: usize, hi: usize) -> (r: (usize, usize))
    requires
        lo <= hi <= text.len(),
    ensures
        lo <= r.0 <= r.1 <= hi,
        text@.subrange(r.0 as int, r.1 as int) == trim(text@.subrange(lo as int, hi as int)),
{
    let mut a: usize = lo;
    while a < hi && whitespace(text[a])
        invariant
            lo <= a <= hi <= text.len(),
            trim_start(text@.subrange(lo as int, hi as int)) == trim_start(
                text@.subrange(a as int, hi as int),
            ),
        decreases hi - a,
    {
        assert(text@.subrange(a as int, hi as int).skip(1) =~= text@.subrange(a + 1, hi as int));
        a = a + 1;
    }
    assert(trim_start(text@.subrange(a as int, hi as int)) == text@.subrange(a as int, hi as int));
    let mut b: usize = hi;
    while b > a && whitespace(text[b - 1])
        invariant
            a <= b <= hi <= text.len(),
            trim_end(text@.subrange(a as int, hi as int)) == trim_end(
                text@.subrange(a as int, b as int),
            ),
        decreases b - a,
    {
        assert(text@.subrange(a as int, b as int).drop_last() =~= text@.subrange(
            a as int,
            b - 1,
        ));
        b = b - 1;
    }
    assert(trim_end(text@.subrange(a as int, b as int)) == text@.subrange(a as int, b as int));
    (a, b)
}

} // verus!
