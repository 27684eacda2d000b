//! Character-sequence helpers shared by the SSDP, description and SOAP
//! parsers: trimming, case-insensitive prefix tests, substring search and
//! decimal parsing, each specified over `Seq<char>`.

use vstd::prelude::*;

verus! {

/// The whitespace characters stripped from header values.
pub open spec fn is_space(c: char) -> bool {
    c == ' ' || c == '\t' || c == '\r' || c == '\n'
}

/// `s` without its leading whitespace.
pub open spec fn trim_front(s: Seq<char>) -> Seq<char>
    decreases s.len(),
{
    if s.len() > 0 && is_space(s[0]) {
        trim_front(s.drop_first())
    } else {
        s
    }
}

/// `s` without its trailing whitespace.
pub open spec fn trim_back(s: Seq<char>) -> Seq<char>
    decreases s.len(),
{
    if s.len() > 0 && is_space(s.last()) {
        trim_back(s.drop_last())
    } else {
        s
    }
}

/// `s` without leading and trailing whitespace.
pub open spec fn trimmed(s: Seq<char>) -> Seq<char> {
    trim_back(trim_front(s))
}

/// `c` matches the (lower-case or symbol) pattern character `p` up to ASCII
/// case: either exactly, or `c` is the upper-case ASCII letter of `p`.
pub open spec fn ci_matches(c: char, p: char) -> bool {
    c == p || ('A' as u32 <= c as u32 && c as u32 <= 'Z' as u32 && c as u32 + 32 == p as u32)
}

/// `s` begins with `p`, compared ASCII-case-insensitively (`p` is expected
/// to be lower case).
pub open spec fn prefix_ci(s: Seq<char>, p: Seq<char>) -> bool {
    s.len() >= p.len() && (forall|i: int| 0 <= i < p.len() ==> ci_matches(s[i], p[i]))
}

/// `s` begins with `p`, compared exactly.
pub open spec fn seq_starts_with(s: Seq<char>, p: Seq<char>) -> bool {
    s.len() >= p.len() && s.subrange(0, p.len() as int) == p
}

/// The least position `j >= i` at which `sub` occurs in `s`, if any.
pub open spec fn find_sub_from(s: Seq<char>, sub: Seq<char>, i: int) -> Option<int>
    decreases s.len() - i,
{
    if i < 0 || i + sub.len() > s.len() {
        None
    } else if sub.len() == 0 {
        Some(i)
    } else if s.subrange(i, i + sub.len()) == sub {
        Some(i)
    } else {
        find_sub_from(s, sub, i + 1)
    }
}

/// `sub` occurs somewhere in `s`.
pub open spec fn has_substring(s: Seq<char>, sub: Seq<char>) -> bool {
    find_sub_from(s, sub, 0) is Some
}

/// The least position `j >= i` at which the character `c` occurs in `s`.
pub open spec fn find_char_from(s: Seq<char>, c: char, i: int) -> Option<int>
    decreases s.len() - i,
{
    if i < 0 || i >= s.len() {
        None
    } else if s[i] == c {
        Some(i)
    } else {
        find_char_from(s, c, i + 1)
    }
}

/// What a `find_char_from` result means position by position.
pub proof fn lemma_find_char_range(s: Seq<char>, c: char, i: int)
    requires
        0 <= i,
    ensures
        match find_char_from(s, c, i) {
            Some(j) => i <= j < s.len() && s[j] == c && (forall|k: int| i <= k < j ==> s[k] != c),
            None => forall|k: int| i <= k < s.len() ==> s[k] != c,
        },
    decreases s.len() - i,
{
    if i < 0 || i >= s.len() {
    } else if s[i] == c {
    } else {
        lemma_find_char_range(s, c, i + 1);
    }
}

/// A digit character.
pub open spec fn is_digit(c: char) -> bool {
    '0' as u32 <= c as u32 && c as u32 <= '9' as u32
}

/// The numeric value of a digit character.
pub open spec fn digit_val(c: char) -> int {
    c as u32 - '0' as u32
}

/// Every character of `s` is a digit.
pub open spec fn all_digits(s: Seq<char>) -> bool {
    forall|i: int| 0 <= i < s.len() ==> is_digit(s[i])
}

/// The value of `s` read as a decimal numeral.
pub open spec fn digits_val(s: Seq<char>) -> int
    decreases s.len(),
{
    if s.len() == 0 {
        0
    } else {
        digits_val(s.drop_last()) * 10 + digit_val(s.last())
    }
}

/// The number `s` denotes as an unsigned 64-bit decimal, if it is one:
/// at least one character, digits only, value within range.
pub open spec fn parsed_u64(s: Seq<char>) -> Option<u64> {
    if s.len() > 0 && all_digits(s) && digits_val(s) <= u64::MAX {
        Some(digits_val(s) as u64)
    } else {
        None
    }
}

pub proof fn lemma_digits_val_nonneg(s: Seq<char>)
    requires
        all_digits(s),
    ensures
        digits_val(s) >= 0,
    decreases s.len(),
{
    if s.len() > 0 {
        assert(all_digits(s.drop_last()));
        lemma_digits_val_nonneg(s.drop_last());
    }
}

/// A decimal numeral is at least as large as any of its prefixes.
pub proof fn lemma_digits_val_extend(s: Seq<char>, j: int)
    requires
        all_digits(s),
        0 <= j <= s.len(),
    ensures
        digits_val(s.take(j)) <= digits_val(s),
    decreases s.len() - j,
{
    if j == s.len() {
        assert(s.take(j) =~= s);
    } else {
        assert(s.take(j + 1).drop_last() =~= s.take(j));
        assert(all_digits(s.take(j)));
        lemma_digits_val_nonneg(s.take(j));
        assert(digits_val(s.take(j + 1)) == digits_val(s.take(j)) * 10 + digit_val(s[j]));
        lemma_digits_val_extend(s, j + 1);
    }
}

/// Relies on str::chars: it yields the characters of the string in order,
/// which is exactly the view of a `&str`.
#[verifier::external_body]
pub fn chars_of(s: &str) -> (r: Vec<char>)
    ensures
        r@ == s@,
{
    s.chars().collect()
}

/// Relies on String's FromIterator<char> impl: collecting characters builds
/// the string holding exactly those characters in order.
#[verifier::external_body]
pub fn chars_to_string(v: &Vec<char>) -> (r: String)
    ensures
        r@ == v@,
{
    v.iter().collect()
}

/// The two sequences hold the same characters.
pub fn eq_chars(a: &Vec<char>, b: &Vec<char>) -> (r: bool)
    ensures
        r == (a@ == b@),
{
    if a.len() != b.len() {
        return false;
    }
    let mut i: usize = 0;
    while i < a.len()
        invariant
            i <= a.len(),
            a.len() == b.len(),
            forall|j: int| 0 <= j < i ==> a@[j] == b@[j],
        decreases a.len() - i,
    {
        if a[i] != b[i] {
            return false;
        }
        i += 1;
    }
    proof {
        assert(a@ =~= b@);
    }
    true
}

/// The characters of `v` from `lo` (inclusive) to `hi` (exclusive).
pub fn sub_chars(v: &Vec<char>, lo: usize, hi: usize) -> (r: Vec<char>)
    requires
        lo <= hi <= v@.len(),
    ensures
        r@ == v@.subrange(lo as int, hi as int),
{
    let mut out: Vec<char> = Vec::new();
    let mut i: usize = lo;
    while i < hi
        invariant
            lo <= i <= hi <= v@.len(),
            out@ == v@.subrange(lo as int, i as int),
        decreases hi - i,
    {
        out.push(v[i]);
        i += 1;
        proof {
            assert(out@ =~= v@.subrange(lo as int, i as int));
        }
    }
    out
}

/// `a` followed by `b`.
pub fn concat_chars(a: &Vec<char>, b: &Vec<char>) -> (r: Vec<char>)
    ensures
        r@ == a@ + b@,
{
    let mut out = sub_chars(a, 0, a.len());
    proof {
        assert(out@ =~= a@);
    }
    let mut i: usize = 0;
    while i < b.len()
        invariant
            i <= b@.len(),
            out@ == a@ + b@.subrange(0, i as int),
        decreases b.len() - i,
    {
        out.push(b[i]);
        i += 1;
        proof {
            assert(out@ =~= a@ + b@.subrange(0, i as int));
        }
    }
    proof {
        assert(b@.subrange(0, b@.len() as int) =~= b@);
    }
    out
}

/// `v` without leading and trailing whitespace.
pub fn trim_chars(v: &Vec<char>) -> (r: Vec<char>)
    ensures
        r@ == trimmed(v@),
{
    proof {
        assert(v@.skip(0) =~= v@);
    }
    let mut lo: usize = 0;
    while lo < v.len() && (v[lo] == ' ' || v[lo] == '\t' || v[lo] == '\r' || v[lo] == '\n')
        invariant
            lo <= v@.len(),
            trim_front(v@) == trim_front(v@.skip(lo as int)),
        decreases v.len() - lo,
    {
        proof {
            assert(v@.skip(lo as int).drop_first() =~= v@.skip(lo as int + 1));
        }
        lo += 1;
    }
    proof {
        assert(trim_front(v@) =~= v@.skip(lo as int));
        assert(v@.skip(lo as int) =~= v@.subrange(lo as int, v@.len() as int));
    }
    let mut hi: usize = v.len();
    while hi > lo && (v[hi - 1] == ' ' || v[hi - 1] == '\t' || v[hi - 1] == '\r' || v[hi - 1] == '\n')
        invariant
            lo <= hi <= v@.len(),
            trim_front(v@) == v@.subrange(lo as int, v@.len() as int),
            trimmed(v@) == trim_back(v@.subrange(lo as int, hi as int)),
        decreases hi,
    {
        proof {
            assert(v@.subrange(lo as int, hi as int).drop_last() =~= v@.subrange(
                lo as int,
                hi as int - 1,
            ));
        }
        hi -= 1;
    }
    sub_chars(v, lo, hi)
}

/// `s` begins with `p`.
pub fn starts_with_chars(s: &Vec<char>, p: &Vec<char>) -> (r: bool)
    ensures
        r == seq_starts_with(s@, p@),
{
    if s.len() < p.len() {
        return false;
    }
    let mut i: usize = 0;
    while i < p.len()
        invariant
            i <= p@.len() <= s@.len(),
            forall|j: int| 0 <= j < i ==> s@[j] == p@[j],
        decreases p.len() - i,
    {
        if s[i] != p[i] {
            proof {
                assert(s@.subrange(0, p@.len() as int)[i as int] != p@[i as int]);
            }
            return false;
        }
        i += 1;
    }
    proof {
        assert(s@.subrange(0, p@.len() as int) =~= p@);
    }
    true
}

/// `s` begins with `p` up to ASCII case (`p` lower case).
pub fn has_prefix_ci(s: &Vec<char>, p: &Vec<char>) -> (r: bool)
    ensures
        r == prefix_ci(s@, p@),
{
    if s.len() < p.len() {
        return false;
    }
    let mut i: usize = 0;
    while i < p.len()
        invariant
            i <= p@.len() <= s@.len(),
            forall|j: int| 0 <= j < i ==> ci_matches(s@[j], p@[j]),
        decreases p.len() - i,
    {
        let c = s[i];
        let q = p[i];
        let ok = c == q || (c as u32 >= 'A' as u32 && c as u32 <= 'Z' as u32 && c as u32 + 32
            == q as u32);
        if !ok {
            return false;
        }
        i += 1;
    }
    true
}

/// The least position `j >= start` at which `c` occurs in `v`.
pub fn find_char_at(v: &Vec<char>, c: char, start: usize) -> (r: Option<usize>)
    ensures
        match r {
            Some(j) => find_char_from(v@, c, start as int) == Some(j as int),
            None => find_char_from(v@, c, start as int) is None,
        },
{
    let mut i: usize = start;
    while i < v.len()
        invariant
            find_char_from(v@, c, start as int) == find_char_from(v@, c, i as int),
        decreases v.len() - i,
    {
        if v[i] == c {
            return Some(i);
        }
        i += 1;
    }
    None
}

/// Where a `find_sub_from` hit lies relative to the bounds of `s`.
pub proof fn lemma_find_sub_range(s: Seq<char>, sub: Seq<char>, i: int)
    requires
        0 <= i,
    ensures
        match find_sub_from(s, sub, i) {
            Some(j) => i <= j && j + sub.len() <= s.len(),
            None => true,
        },
    decreases s.len() - i,
{
    if i + sub.len() > s.len() {
    } else if sub.len() == 0 {
    } else if s.subrange(i, i + sub.len()) == sub {
    } else {
        lemma_find_sub_range(s, sub, i + 1);
    }
}

/// Whether `s` has `sub` as a (contiguous) substring.
pub fn contains_sub(s: &Vec<char>, sub: &Vec<char>) -> (r: bool)
    ensures
        r == has_substring(s@, sub@),
{
    match find_sub_at(s, sub, 0) {
        Some(_) => true,
        None => false,
    }
}

/// The least position `j >= start` at which `sub` occurs in `s`.
pub fn find_sub_at(s: &Vec<char>, sub: &Vec<char>, start: usize) -> (r: Option<usize>)
    ensures
        match r {
            Some(j) => find_sub_from(s@, sub@, start as int) == Some(j as int),
            None => find_sub_from(s@, sub@, start as int) is None,
        },
{
    if start > s.len() {
        return None;
    }
    if sub.len() == 0 {
        return Some(start);
    }
    if sub.len() > s.len() - start {
        return None;
    }
    let n: usize = s.len();
    let bound: usize = n - sub.len();
    let mut i: usize = start;
    while i <= bound
        invariant
            sub@.len() > 0,
            n == s@.len(),
            bound == s@.len() - sub@.len(),
            i <= bound + 1,
            find_sub_from(s@, sub@, start as int) == find_sub_from(s@, sub@, i as int),
        decreases bound + 1 - i,
    {
        let mut j: usize = 0;
        let mut matched = true;
        while j < sub.len()
            invariant
                n == s@.len(),
                i + sub@.len() <= s@.len(),
                j <= sub@.len(),
                matched ==> forall|k: int| 0 <= k < j ==> s@[i + k] == sub@[k],
                !matched ==> s@.subrange(i as int, i as int + sub@.len() as int) != sub@,
            decreases sub.len() - j,
        {
            if s[i + j] != sub[j] {
                proof {
                    assert(s@.subrange(i as int, i as int + sub@.len() as int)[j as int]
                        != sub@[j as int]);
                }
                matched = false;
                j = sub.len();
            } else {
                j += 1;
            }
        }
        if matched {
            proof {
                assert(s@.subrange(i as int, i as int + sub@.len() as int) =~= sub@);
            }
            return Some(i);
        }
        i += 1;
    }
    None
}

/// The characters of `v` read as an unsigned 64-bit decimal numeral.
pub fn parse_u64_chars(s: &Vec<char>) -> (r: Option<u64>)
    ensures
        r == parsed_u64(s@),
{
    if s.len() == 0 {
        return None;
    }
    let mut val: u64 = 0;
    let mut i: usize = 0;
    while i < s.len()
        invariant
            0 < s@.len(),
            i <= s@.len(),
            all_digits(s@.take(i as int)),
            val as int == digits_val(s@.take(i as int)),
        decreases s.len() - i,
    {
        let c = s[i];
        let cu = c as u32;
        if cu < '0' as u32 || cu > '9' as u32 {
            assert(!is_digit(s@[i as int]));
            return None;
        }
        let d = (cu - '0' as u32) as u64;
        let wide: u128 = (val as u128) * 10 + (d as u128);
        proof {
            assert(s@.take(i as int + 1).drop_last() =~= s@.take(i as int));
            assert(digits_val(s@.take(i as int + 1)) == wide as int);
            assert(all_digits(s@.take(i as int + 1)));
        }
        if wide > u64::MAX as u128 {
            proof {
                if all_digits(s@) {
                    lemma_digits_val_extend(s@, i as int + 1);
                    assert(digits_val(s@) > u64::MAX);
                }
            }
            return None;
        }
        val = wide as u64;
        i += 1;
    }
    proof {
        assert(s@.take(s@.len() as int) =~= s@);
    }
    Some(val)
}

} // verus!
