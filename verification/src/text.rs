//! Character-level text utilities: ASCII case folding, case-insensitive
//! substring search, and the comparisons the runtime classifier needs.

use vstd::prelude::*;
use vstd::string::*;

verus! {

/// ASCII-lowered code point of a character: the letters 'A'..'Z' map to
/// their lowercase counterparts, every other character to itself.
pub open spec fn lower(c: char) -> int {
    if 'A' <= c && c <= 'Z' {
        c as u32 + 32
    } else {
        c as u32 as int
    }
}

/// The needle `kw` occurs in `s` at position `i`, comparing characters
/// ASCII-case-insensitively.
pub open spec fn ci_matches_at(s: Seq<char>, kw: Seq<char>, i: int) -> bool {
    &&& 0 <= i
    &&& i + kw.len() <= s.len()
    &&& forall|j: int| 0 <= j < kw.len() ==> lower(s[i + j]) == lower(kw[j])
}

/// The needle `kw` occurs somewhere in `s`, ASCII-case-insensitively.
pub open spec fn ci_contains(s: Seq<char>, kw: Seq<char>) -> bool {
    exists|i: int| ci_matches_at(s, kw, i)
}

/// `s` and `kw` are equal up to ASCII case.
pub open spec fn ci_equal(s: Seq<char>, kw: Seq<char>) -> bool {
    s.len() == kw.len() && ci_matches_at(s, kw, 0)
}

/// `s` begins with `kw`, up to ASCII case.
pub open spec fn ci_starts_with(s: Seq<char>, kw: Seq<char>) -> bool {
    kw.len() <= s.len() && ci_matches_at(s, kw, 0)
}

/// ASCII-lowered code point, executable form.
fn char_lower(c: char) -> (r: u32)
    ensures
        r == lower(c),
{
    let u = c as u32;
    if 65 <= u && u <= 90 {
        u + 32
    } else {
        u
    }
}

/// Whether `kw` matches `s` at position `i`, ASCII-case-insensitively.
pub fn ci_match_at(s: &str, kw: &str, i: usize) -> (r: bool)
    requires
        i + kw@.len() <= s@.len(),
    ensures
        r == ci_matches_at(s@, kw@, i as int),
{
    let slen = s.unicode_len();
    let klen = kw.unicode_len();
    let mut j: usize = 0;
    while j < klen
        invariant
            slen == s@.len(),
            klen == kw@.len(),
            i + klen <= slen,
            0 <= j <= klen,
            forall|t: int| 0 <= t < j ==> lower(s@[i + t]) == lower(kw@[t]),
        decreases klen - j,
    {
        let a = char_lower(s.get_char(i + j));
        let b = char_lower(kw.get_char(j));
        if a != b {
            return false;
        }
        j += 1;
    }
    true
}

/// Whether `kw` occurs anywhere in `s`, ASCII-case-insensitively.
pub fn ci_contains_str(s: &str, kw: &str) -> (r: bool)
    ensures
        r == ci_contains(s@, kw@),
{
    let slen = s.unicode_len();
    let klen = kw.unicode_len();
    if klen > slen {
        assert(forall|i: int| !ci_matches_at(s@, kw@, i));
        return false;
    }
    let bound = slen - klen;
    let mut i: usize = 0;
    loop
        invariant
            slen == s@.len(),
            klen == kw@.len(),
            klen <= slen,
            bound == slen - klen,
            0 <= i <= bound,
            forall|t: int| 0 <= t < i ==> !ci_matches_at(s@, kw@, t),
        decreases bound - i,
    {
        if ci_match_at(s, kw, i) {
            return true;
        }
        if i == bound {
            assert(forall|t: int| !ci_matches_at(s@, kw@, t)) by {
                assert(forall|t: int| t > bound ==> !ci_matches_at(s@, kw@, t));
            }
            return false;
        }
        i += 1;
    }
}

/// Whether `s` equals `kw` up to ASCII case.
pub fn ci_equal_str(s: &str, kw: &str) -> (r: bool)
    ensures
        r == ci_equal(s@, kw@),
{
    let slen = s.unicode_len();
    let klen = kw.unicode_len();
    if slen != klen {
        return false;
    }
    ci_match_at(s, kw, 0)
}

/// Whether `s` starts with `kw`, up to ASCII case.
pub fn ci_starts_with_str(s: &str, kw: &str) -> (r: bool)
    ensures
        r == ci_starts_with(s@, kw@),
{
    let slen = s.unicode_len();
    let klen = kw.unicode_len();
    if klen > slen {
        return false;
    }
    ci_match_at(s, kw, 0)
}

/// Position of the last occurrence of `c` in `h`, if any.
pub open spec fn last_index_of(h: Seq<char>, c: char) -> Option<int>
    decreases h.len(),
{
    if h.len() == 0 {
        None
    } else if h[h.len() - 1] == c {
        Some(h.len() - 1)
    } else {
        last_index_of(h.drop_last(), c)
    }
}

/// When every position from `i` to the end differs from `c`, the last
/// occurrence of `c` in the whole sequence is its last occurrence in the
/// prefix before `i`.
proof fn lemma_last_index_prefix(h: Seq<char>, c: char, i: int)
    requires
        0 <= i <= h.len(),
        forall|k: int| i <= k < h.len() ==> h[k] != c,
    ensures
        last_index_of(h, c) == last_index_of(h.subrange(0, i), c),
    decreases h.len() - i,
{
    if i == h.len() {
        assert(h.subrange(0, i) =~= h);
    } else {
        assert(h[h.len() - 1] != c);
        assert(h.drop_last() =~= h.subrange(0, h.len() - 1));
        lemma_last_index_prefix(h.subrange(0, h.len() - 1), c, i);
        assert(h.subrange(0, h.len() - 1).subrange(0, i) =~= h.subrange(0, i));
    }
}

/// Index of the last occurrence of `c` in `s`, scanning from the end.
pub fn find_last(s: &str, c: char) -> (r: Option<usize>)
    ensures
        match r {
            Some(i) => last_index_of(s@, c) == Some(i as int) && i < s@.len(),
            None => last_index_of(s@, c) == None::<int>,
        },
{
    let len = s.unicode_len();
    let mut i: usize = len;
    while i > 0
        invariant
            len == s@.len(),
            0 <= i <= len,
            forall|k: int| i <= k < s@.len() ==> s@[k] != c,
        decreases i,
    {
        let d = s.get_char(i - 1);
        if d == c {
            proof {
                lemma_last_index_prefix(s@, c, i as int);
                let p = s@.subrange(0, i as int);
                assert(p.len() == i);
                assert(p[i - 1] == c);
                assert(last_index_of(p, c) == Some(i - 1 as int));
            }
            return Some(i - 1);
        }
        i -= 1;
    }
    proof {
        lemma_last_index_prefix(s@, c, 0);
        assert(s@.subrange(0, 0) =~= Seq::<char>::empty());
        assert(last_index_of(Seq::<char>::empty(), c) == None::<int>);
    }
    None
}

/// Position of the first occurrence of `c` in `h`, if any.
pub open spec fn first_index_of(h: Seq<char>, c: char) -> Option<int>
    decreases h.len(),
{
    if h.len() == 0 {
        None
    } else if h[0] == c {
        Some(0)
    } else {
        match first_index_of(h.drop_first(), c) {
            Some(i) => Some(i + 1),
            None => None,
        }
    }
}

proof fn lemma_first_index_at(h: Seq<char>, c: char, i: int)
    requires
        0 <= i < h.len(),
        h[i] == c,
        forall|j: int| 0 <= j < i ==> h[j] != c,
    ensures
        first_index_of(h, c) == Some(i),
    decreases i,
{
    if i > 0 {
        lemma_first_index_at(h.drop_first(), c, i - 1);
    }
}

proof fn lemma_first_index_none(h: Seq<char>, c: char)
    requires
        forall|j: int| 0 <= j < h.len() ==> h[j] != c,
    ensures
        first_index_of(h, c) == None::<int>,
    decreases h.len(),
{
    if h.len() > 0 {
        lemma_first_index_none(h.drop_first(), c);
    }
}

/// Index of the first occurrence of `c` in `s`, scanning from the front.
pub fn find_first(s: &str, c: char) -> (r: Option<usize>)
    ensures
        match r {
            Some(i) => first_index_of(s@, c) == Some(i as int) && i < s@.len(),
            None => first_index_of(s@, c) == None::<int>,
        },
{
    let len = s.unicode_len();
    let mut i: usize = 0;
    while i < len
        invariant
            len == s@.len(),
            0 <= i <= len,
            forall|k: int| 0 <= k < i ==> s@[k] != c,
        decreases len - i,
    {
        let d = s.get_char(i);
        if d == c {
            proof {
                lemma_first_index_at(s@, c, i as int);
            }
            return Some(i);
        }
        i += 1;
    }
    proof {
        lemma_first_index_none(s@, c);
    }
    None
}

/// ASCII whitespace: space, tab, line feed, vertical tab, form feed,
/// carriage return.
pub open spec fn is_space(c: char) -> bool {
    c as u32 == 32 || c as u32 == 9 || c as u32 == 10 || c as u32 == 11 || c as u32 == 12
        || c as u32 == 13
}

fn is_space_char(c: char) -> (r: bool)
    ensures
        r == is_space(c),
{
    let u = c as u32;
    u == 32 || u == 9 || u == 10 || u == 11 || u == 12 || u == 13
}

/// Length of the maximal whitespace prefix.
pub open spec fn first_non_space(s: Seq<char>) -> int
    decreases s.len(),
{
    if s.len() == 0 {
        0
    } else if !is_space(s[0]) {
        0
    } else {
        1 + first_non_space(s.drop_first())
    }
}

/// End of the content once the maximal whitespace suffix is dropped.
pub open spec fn last_non_space_end(s: Seq<char>) -> int
    decreases s.len(),
{
    if s.len() == 0 {
        0
    } else if !is_space(s[s.len() - 1]) {
        s.len() as int
    } else {
        last_non_space_end(s.drop_last())
    }
}

/// The sequence with leading and trailing ASCII whitespace removed.
pub open spec fn trimmed(s: Seq<char>) -> Seq<char> {
    let a = first_non_space(s);
    let b = last_non_space_end(s);
    if a <= b {
        s.subrange(a, b)
    } else {
        Seq::empty()
    }
}

/// Every character is whitespace (true of the empty sequence).
pub open spec fn blank(s: Seq<char>) -> bool {
    forall|i: int| 0 <= i < s.len() ==> is_space(s[i])
}

proof fn lemma_first_non_space_at(s: Seq<char>, a: int)
    requires
        0 <= a <= s.len(),
        forall|j: int| 0 <= j < a ==> is_space(s[j]),
        a < s.len() ==> !is_space(s[a]),
    ensures
        first_non_space(s) == a,
    decreases a,
{
    if s.len() == 0 {
    } else if a == 0 {
    } else {
        assert(s.drop_first() =~= s.subrange(1, s.len() as int));
        lemma_first_non_space_at(s.drop_first(), a - 1);
    }
}

proof fn lemma_last_non_space_end_at(s: Seq<char>, b: int)
    requires
        0 <= b <= s.len(),
        forall|j: int| b <= j < s.len() ==> is_space(s[j]),
        b > 0 ==> !is_space(s[b - 1]),
    ensures
        last_non_space_end(s) == b,
    decreases s.len() - b,
{
    if b == s.len() {
        if s.len() > 0 {
        }
    } else {
        assert(is_space(s[s.len() - 1]));
        assert(s.drop_last() =~= s.subrange(0, s.len() - 1));
        lemma_last_non_space_end_at(s.drop_last(), b);
    }
}

proof fn lemma_first_non_space_bounds(s: Seq<char>)
    ensures
        0 <= first_non_space(s) <= s.len(),
    decreases s.len(),
{
    if s.len() > 0 && is_space(s[0]) {
        lemma_first_non_space_bounds(s.drop_first());
    }
}

proof fn lemma_last_non_space_end_bounds(s: Seq<char>)
    ensures
        0 <= last_non_space_end(s) <= s.len(),
    decreases s.len(),
{
    if s.len() > 0 && is_space(s[s.len() - 1]) {
        lemma_last_non_space_end_bounds(s.drop_last());
    }
}

proof fn lemma_first_non_space_le(s: Seq<char>, k: int)
    requires
        0 <= k < s.len(),
        !is_space(s[k]),
    ensures
        first_non_space(s) <= k,
    decreases k,
{
    if s.len() == 0 {
    } else if !is_space(s[0]) {
    } else {
        lemma_first_non_space_le(s.drop_first(), k - 1);
    }
}

proof fn lemma_last_non_space_ge(s: Seq<char>, k: int)
    requires
        0 <= k < s.len(),
        !is_space(s[k]),
    ensures
        last_non_space_end(s) >= k + 1,
    decreases s.len(),
{
    if !is_space(s[s.len() - 1]) {
    } else {
        lemma_last_non_space_ge(s.drop_last(), k);
    }
}

/// Law: a sequence is blank, empty or all whitespace, exactly when
/// trimming it leaves nothing.
pub proof fn lemma_blank_iff_trimmed_empty(s: Seq<char>)
    ensures
        blank(s) <==> trimmed(s).len() == 0,
{
    if blank(s) {
        lemma_first_non_space_at(s, s.len() as int);
        lemma_last_non_space_end_at(s, 0);
    } else {
        let k = choose|k: int| 0 <= k < s.len() && !is_space(s[k]);
        lemma_first_non_space_bounds(s);
        lemma_last_non_space_end_bounds(s);
        lemma_first_non_space_le(s, k);
        lemma_last_non_space_ge(s, k);
        assert(trimmed(s).len() > 0);
    }
}

/// A fresh copy of `s` with leading and trailing ASCII whitespace removed.
pub fn trim_str(s: &str) -> (r: String)
    ensures
        r@ == trimmed(s@),
{
    let len = s.unicode_len();
    let mut a: usize = 0;
    while a < len && is_space_char(s.get_char(a))
        invariant
            len == s@.len(),
            0 <= a <= len,
            forall|j: int| 0 <= j < a ==> is_space(s@[j]),
        decreases len - a,
    {
        a += 1;
    }
    proof {
        lemma_first_non_space_at(s@, a as int);
    }
    if a == len {
        proof {
            lemma_last_non_space_end_at(s@, 0);
        }
        return String::new();
    }
    let mut b: usize = len;
    while b > a + 1 && is_space_char(s.get_char(b - 1))
        invariant
            len == s@.len(),
            a < len,
            !is_space(s@[a as int]),
            a + 1 <= b <= len,
            forall|j: int| b <= j < len ==> is_space(s@[j]),
        decreases b,
    {
        b -= 1;
    }
    proof {
        assert(!is_space(s@[b - 1]));
        lemma_last_non_space_end_at(s@, b as int);
    }
    s.substring_char(a, b).to_owned()
}

/// Whether `s` is empty or holds only ASCII whitespace.
pub fn is_blank(s: &str) -> (r: bool)
    ensures
        r == blank(s@),
{
    let len = s.unicode_len();
    let mut i: usize = 0;
    while i < len
        invariant
            len == s@.len(),
            0 <= i <= len,
            forall|j: int| 0 <= j < i ==> is_space(s@[j]),
        decreases len - i,
    {
        if !is_space_char(s.get_char(i)) {
            return false;
        }
        i += 1;
    }
    true
}

/// The character for one decimal digit.
pub open spec fn digit_char(d: int) -> char {
    if d == 0 {
        '0'
    } else if d == 1 {
        '1'
    } else if d == 2 {
        '2'
    } else if d == 3 {
        '3'
    } else if d == 4 {
        '4'
    } else if d == 5 {
        '5'
    } else if d == 6 {
        '6'
    } else if d == 7 {
        '7'
    } else if d == 8 {
        '8'
    } else {
        '9'
    }
}

/// The decimal representation of a nonnegative integer, most significant
/// digit first.
pub open spec fn dec_rep(n: int) -> Seq<char>
    decreases n,
{
    if n < 10 {
        seq![digit_char(n)]
    } else {
        dec_rep(n / 10).push(digit_char(n % 10))
    }
}

/// Appends one decimal digit character.
fn push_digit(out: &mut String, d: u64)
    requires
        d < 10,
    ensures
        final(out)@ == old(out)@.push(digit_char(d as int)),
{
    let ghost prev = out@;
    if d == 0 {
        out.append("0");
        proof {
            reveal_strlit("0");
        }
    } else if d == 1 {
        out.append("1");
        proof {
            reveal_strlit("1");
        }
    } else if d == 2 {
        out.append("2");
        proof {
            reveal_strlit("2");
        }
    } else if d == 3 {
        out.append("3");
        proof {
            reveal_strlit("3");
        }
    } else if d == 4 {
        out.append("4");
        proof {
            reveal_strlit("4");
        }
    } else if d == 5 {
        out.append("5");
        proof {
            reveal_strlit("5");
        }
    } else if d == 6 {
        out.append("6");
        proof {
            reveal_strlit("6");
        }
    } else if d == 7 {
        out.append("7");
        proof {
            reveal_strlit("7");
        }
    } else if d == 8 {
        out.append("8");
        proof {
            reveal_strlit("8");
        }
    } else {
        out.append("9");
        proof {
            reveal_strlit("9");
        }
    }
    proof {
        assert(out@ =~= prev.push(digit_char(d as int)));
    }
}

/// Appends the decimal representation of `n`.
pub fn push_decimal(out: &mut String, n: u64)
    ensures
        final(out)@ == old(out)@ + dec_rep(n as int),
    decreases n,
{
    let ghost prev = out@;
    if n < 10 {
        push_digit(out, n);
        proof {
            assert(out@ =~= prev + dec_rep(n as int));
        }
    } else {
        push_decimal(out, n / 10);
        push_digit(out, n % 10);
        proof {
            assert(out@ =~= prev + dec_rep(n as int));
        }
    }
}

} // verus!
