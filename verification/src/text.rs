//! Character-level text helpers shared by the rest of the library.

use vstd::prelude::*;

verus! {

/// The Unicode `White_Space` property, which is what `char::is_whitespace`
/// and `str::trim` go by.
pub open spec fn is_ws(c: char) -> bool {
    let u = c as u32;
    ||| 0x09 <= u <= 0x0D
    ||| u == 0x20
    ||| u == 0x85
    ||| u == 0xA0
    ||| u == 0x1680
    ||| 0x2000 <= u <= 0x200A
    ||| u == 0x2028
    ||| u == 0x2029
    ||| u == 0x202F
    ||| u == 0x205F
    ||| u == 0x3000
}

/// Index of the first non-whitespace character at or after `i`.
pub open spec fn lead_end(s: Seq<char>, i: int) -> int
    decreases s.len() - i,
{
    if 0 <= i < s.len() && is_ws(s[i]) {
        lead_end(s, i + 1)
    } else {
        i
    }
}

/// End (exclusive) of `s` once whitespace is dropped from the back, never
/// going below `lo`.
pub open spec fn trail_end(s: Seq<char>, j: int, lo: int) -> int
    decreases j - lo,
{
    if lo < j && j <= s.len() && is_ws(s[j - 1]) {
        trail_end(s, j - 1, lo)
    } else {
        j
    }
}

/// `s` with leading and trailing whitespace removed (`str::trim`).
pub open spec fn trim_seq(s: Seq<char>) -> Seq<char> {
    let lo = lead_end(s, 0);
    s.subrange(lo, trail_end(s, s.len() as int, lo))
}

/// `s` with every trailing `c` removed (`str::trim_end_matches(c)`).
pub open spec fn trim_end_char(s: Seq<char>, c: char) -> Seq<char>
    decreases s.len(),
{
    if s.len() > 0 && s.last() == c {
        trim_end_char(s.drop_last(), c)
    } else {
        s
    }
}

/// `pat` occurs in `s` as a contiguous run of characters.
pub open spec fn has_sub(s: Seq<char>, pat: Seq<char>) -> bool {
    exists|i: int| 0 <= i <= s.len() - pat.len() && #[trigger] s.subrange(i, i + pat.len()) == pat
}

/// Appends one character to `s`.
/// Calls `String::push`; the contract says that the character is added at the end.
#[verifier::external_body]
pub fn push_char(s: &mut String, c: char)
    ensures
        final(s)@ == old(s)@.push(c),
{
    s.push(c);
}

/// Whether `c` is Unicode whitespace.
pub fn is_whitespace(c: char) -> (r: bool)
    ensures
        r == is_ws(c),
{
    let u = c as u32;
    (0x09 <= u && u <= 0x0D) || u == 0x20 || u == 0x85 || u == 0xA0 || u == 0x1680 || (0x2000
        <= u && u <= 0x200A) || u == 0x2028 || u == 0x2029 || u == 0x202F || u == 0x205F || u
        == 0x3000
}

/// The characters of `s`, in order.
pub fn chars_of(s: &str) -> (v: Vec<char>)
    ensures
        v@ == s@,
{
    let n = s.unicode_len();
    let mut v: Vec<char> = Vec::new();
    let mut i: usize = 0;
    while i < n
        invariant
            n == s@.len(),
            i <= n,
            v@ == s@.subrange(0, i as int),
        decreases n - i,
    {
        let c = s.get_char(i);
        v.push(c);
        i = i + 1;
    }
    v
}

/// A `String` holding the characters `v[lo..hi]`.
pub fn string_from_chars(v: &Vec<char>, lo: usize, hi: usize) -> (s: String)
    requires
        lo <= hi <= v@.len(),
    ensures
        s@ == v@.subrange(lo as int, hi as int),
{
    let mut s = String::new();
    let mut i: usize = lo;
    while i < hi
        invariant
            lo <= i <= hi <= v@.len(),
            s@ == v@.subrange(lo as int, i as int),
        decreases hi - i,
    {
        push_char(&mut s, v[i]);
        i = i + 1;
    }
    s
}

/// Whether two strings hold the same characters.
pub fn str_eq(a: &str, b: &str) -> (r: bool)
    ensures
        r == (a@ == b@),
{
    a.to_owned() == b.to_owned()
}

/// `s` with leading and trailing whitespace removed.
pub fn trim(s: &str) -> (t: String)
    ensures
        t@ == trim_seq(s@),
{
    let v = chars_of(s);
    let n = v.len();
    let mut lo: usize = 0;
    while lo < n && is_whitespace(v[lo])
        invariant
            n == v@.len(),
            lo <= n,
            lead_end(v@, lo as int) == lead_end(v@, 0),
        decreases n - lo,
    {
        lo = lo + 1;
    }
    let mut hi: usize = n;
    while hi > lo && is_whitespace(v[hi - 1])
        invariant
            n == v@.len(),
            lo <= hi <= n,
            lo == lead_end(v@, 0),
            trail_end(v@, hi as int, lo as int) == trail_end(v@, n as int, lo as int),
        decreases hi,
    {
        hi = hi - 1;
    }
    string_from_chars(&v, lo, hi)
}

/// Whether `s` holds nothing but whitespace (`s.trim().is_empty()`).
pub fn is_blank(s: &str) -> (r: bool)
    ensures
        r == (trim_seq(s@).len() == 0),
{
    let t = trim(s);
    t.as_str().unicode_len() == 0
}

/// `s` with every trailing `c` removed.
pub fn trim_end_matches_char(s: &str, c: char) -> (t: String)
    ensures
        t@ == trim_end_char(s@, c),
{
    let v = chars_of(s);
    let mut hi: usize = v.len();
    assert(v@.subrange(0, v@.len() as int) =~= v@);
    while hi > 0 && v[hi - 1] == c
        invariant
            hi <= v@.len(),
            trim_end_char(v@.subrange(0, hi as int), c) == trim_end_char(v@, c),
        decreases hi,
    {
        assert(v@.subrange(0, hi as int).drop_last() =~= v@.subrange(0, hi - 1));
        hi = hi - 1;
    }
    assert(v@.subrange(0, v@.len() as int) =~= v@);
    string_from_chars(&v, 0, hi)
}

/// Whether `pat` occurs in `s` (`str::contains`).
pub fn contains(s: &str, pat: &str) -> (r: bool)
    ensures
        r == has_sub(s@, pat@),
{
    let sv = chars_of(s);
    let pv = chars_of(pat);
    let n = sv.len();
    let m = pv.len();
    if m > n {
        return false;
    }
    let mut i: usize = 0;
    while i <= n - m
        invariant
            sv@ == s@,
            pv@ == pat@,
            n == sv@.len(),
            m == pv@.len(),
            m <= n,
            i <= n - m + 1,
            forall|k: int| 0 <= k < i ==> #[trigger] sv@.subrange(k, k + m) != pv@,
        decreases n - m + 1 - i,
    {
        let mut j: usize = 0;
        let mut same = true;
        while j < m
            invariant
                n == sv@.len(),
                m == pv@.len(),
                i + m <= n,
                j <= m,
                same == (forall|k: int| 0 <= k < j ==> sv@[i + k] == pv@[k]),
            decreases m - j,
        {
            if sv[i + j] != pv[j] {
                same = false;
            }
            j = j + 1;
        }
        if same {
            assert(sv@.subrange(i as int, i + m) =~= pv@);
            assert(s@.subrange(i as int, i + pat@.len()) =~= pat@);
            return true;
        }
        proof {
            let k = choose|k: int| 0 <= k < m && sv@[i + k] != pv@[k];
            assert(sv@.subrange(i as int, i + m)[k] != pv@[k]);
        }
        i = i + 1;
    }
    false
}

/// A string trims to nothing exactly when every character is whitespace.
pub proof fn lemma_blank_iff_all_whitespace(s: Seq<char>)
    ensures
        trim_seq(s).len() == 0 <==> forall|i: int| 0 <= i < s.len() ==> is_ws(#[trigger] s[i]),
{
    lemma_lead_end(s, 0);
    let lo = lead_end(s, 0);
    lemma_trail_end(s, s.len() as int, lo);
}

/// `lead_end` skips whitespace and stops at a non-whitespace character or the end.
proof fn lemma_lead_end(s: Seq<char>, i: int)
    requires
        0 <= i <= s.len(),
    ensures
        i <= lead_end(s, i) <= s.len(),
        forall|k: int| i <= k < lead_end(s, i) ==> is_ws(s[k]),
        lead_end(s, i) < s.len() ==> !is_ws(s[lead_end(s, i)]),
    decreases s.len() - i,
{
    if i < s.len() && is_ws(s[i]) {
        lemma_lead_end(s, i + 1);
    }
}

/// `trail_end` skips whitespace backwards and stops at `lo` or a
/// non-whitespace character.
proof fn lemma_trail_end(s: Seq<char>, j: int, lo: int)
    requires
        0 <= lo <= j <= s.len(),
    ensures
        lo <= trail_end(s, j, lo) <= j,
        forall|k: int| trail_end(s, j, lo) <= k < j ==> is_ws(s[k]),
        trail_end(s, j, lo) > lo ==> !is_ws(s[trail_end(s, j, lo) - 1]),
    decreases j - lo,
{
    if lo < j && is_ws(s[j - 1]) {
        lemma_trail_end(s, j - 1, lo);
    }
}

/// A run of characters found in `b` is found in anything that holds `b`.
pub proof fn lemma_has_sub_within(a: Seq<char>, b: Seq<char>, c: Seq<char>, pat: Seq<char>)
    requires
        has_sub(b, pat),
    ensures
        has_sub(a + b + c, pat),
{
    let i = choose|i: int| 0 <= i <= b.len() - pat.len() && #[trigger] b.subrange(i, i + pat.len()) == pat;
    let s = a + b + c;
    let j = a.len() + i;
    assert(s.subrange(j, j + pat.len()) =~= b.subrange(i, i + pat.len()));
}

} // verus!
