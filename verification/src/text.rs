//! Character-level helpers on strings: comparison, whitespace trimming and
//! the small character classes the game's input handling relies on.
use vstd::prelude::*;
use vstd::string::*;

verus! {

/// Whether two strings hold the same characters.
pub fn str_eq(a: &str, b: &str) -> (r: bool)
    ensures
        r == (a@ == b@),
{
    let n = a.unicode_len();
    if n != b.unicode_len() {
        return false;
    }
    let mut i: usize = 0;
    while i < n
        invariant
            n == a@.len(),
            n == b@.len(),
            i <= n,
            forall|j: int| 0 <= j < i ==> a@[j] == b@[j],
        decreases n - i,
    {
        if a.get_char(i) != b.get_char(i) {
            return false;
        }
        i += 1;
    }
    assert(a@ =~= b@);
    true
}

/// Unicode `White_Space` property, the set that `str::trim` removes.
pub open spec fn is_white_space(c: char) -> bool {
    ||| '\u{9}' <= c <= '\u{d}'
    ||| c == ' '
    ||| c == '\u{85}'
    ||| c == '\u{a0}'
    ||| c == '\u{1680}'
    ||| '\u{2000}' <= c <= '\u{200a}'
    ||| c == '\u{2028}'
    ||| c == '\u{2029}'
    ||| c == '\u{202f}'
    ||| c == '\u{205f}'
    ||| c == '\u{3000}'
}

/// Whether `c` is a Unicode white-space character.
pub fn white_space(c: char) -> (r: bool)
    ensures
        r == is_white_space(c),
{
    ('\u{9}' <= c && c <= '\u{d}') || c == ' ' || c == '\u{85}' || c == '\u{a0}' || c
        == '\u{1680}' || ('\u{2000}' <= c && c <= '\u{200a}') || c == '\u{2028}' || c
        == '\u{2029}' || c == '\u{202f}' || c == '\u{205f}' || c == '\u{3000}'
}

/// `t` is `s` with its leading and trailing white space removed.
pub open spec fn is_trim_of(t: Seq<char>, s: Seq<char>) -> bool {
    exists|start: int, end: int|
        {
            &&& 0 <= start <= end <= s.len()
            &&& t == s.subrange(start, end)
            &&& forall|i: int| 0 <= i < start ==> is_white_space(#[trigger] s[i])
            &&& forall|i: int| end <= i < s.len() ==> is_white_space(#[trigger] s[i])
            &&& start < end ==> !is_white_space(s[start]) && !is_white_space(s[end - 1])
        }
}

/// Trimming has a single result.
pub proof fn lemma_trim_unique(t1: Seq<char>, t2: Seq<char>, s: Seq<char>)
    requires
        is_trim_of(t1, s),
        is_trim_of(t2, s),
    ensures
        t1 == t2,
{
    let (a1, b1) = choose|start: int, end: int|
        {
            &&& 0 <= start <= end <= s.len()
            &&& t1 == s.subrange(start, end)
            &&& forall|i: int| 0 <= i < start ==> is_white_space(#[trigger] s[i])
            &&& forall|i: int| end <= i < s.len() ==> is_white_space(#[trigger] s[i])
            &&& start < end ==> !is_white_space(s[start]) && !is_white_space(s[end - 1])
        };
    let (a2, b2) = choose|start: int, end: int|
        {
            &&& 0 <= start <= end <= s.len()
            &&& t2 == s.subrange(start, end)
            &&& forall|i: int| 0 <= i < start ==> is_white_space(#[trigger] s[i])
            &&& forall|i: int| end <= i < s.len() ==> is_white_space(#[trigger] s[i])
            &&& start < end ==> !is_white_space(s[start]) && !is_white_space(s[end - 1])
        };
    if a1 < b1 && a2 < b2 {
        if a1 < a2 {
            assert(is_white_space(s[a1]));
        }
        if a2 < a1 {
            assert(is_white_space(s[a2]));
        }
        if b1 < b2 {
            assert(is_white_space(s[b2 - 1]));
        }
        if b2 < b1 {
            assert(is_white_space(s[b1 - 1]));
        }
        assert(a1 == a2 && b1 == b2);
    } else if a1 < b1 {
        // t2 is empty, so every character is white space.
        if a2 <= a1 {
            assert(is_white_space(s[a1]));
        } else {
            assert(is_white_space(s[a1]));
        }
    } else if a2 < b2 {
        if a1 <= a2 {
            assert(is_white_space(s[a2]));
        } else {
            assert(is_white_space(s[a2]));
        }
    } else {
        assert(t1 =~= t2);
    }
}

/// `s` with its leading and trailing white space removed.
pub open spec fn trimmed(s: Seq<char>) -> Seq<char> {
    choose|t: Seq<char>| is_trim_of(t, s)
}

/// Removes leading and trailing white space.
pub fn trim(s: &str) -> (r: &str)
    ensures
        r@ == trimmed(s@),
        is_trim_of(r@, s@),
{
    let n = s.unicode_len();
    let mut start: usize = 0;
    while start < n && white_space(s.get_char(start))
        invariant
            n == s@.len(),
            start <= n,
            forall|i: int| 0 <= i < start ==> is_white_space(#[trigger] s@[i]),
        decreases n - start,
    {
        start += 1;
    }
    let mut end: usize = n;
    while end > start && white_space(s.get_char(end - 1))
        invariant
            n == s@.len(),
            start <= end <= n,
            forall|i: int| end <= i < n ==> is_white_space(#[trigger] s@[i]),
            start < n ==> !is_white_space(s@[start as int]),
        decreases end - start,
    {
        end -= 1;
    }
    let r = s.substring_char(start, end);
    assert(is_trim_of(r@, s@)) by {
        assert(start <= end);
    }
    proof {
        lemma_trim_unique(r@, trimmed(s@), s@);
    }
    r
}

/// ASCII letters and digits, as `char::is_ascii_alphanumeric` defines them.
pub open spec fn is_ascii_alnum(c: char) -> bool {
    ||| 'a' <= c <= 'z'
    ||| 'A' <= c <= 'Z'
    ||| '0' <= c <= '9'
}

/// Whether `c` is an ASCII letter or digit.
pub fn ascii_alnum(c: char) -> (r: bool)
    ensures
        r == is_ascii_alnum(c),
{
    ('a' <= c && c <= 'z') || ('A' <= c && c <= 'Z') || ('0' <= c && c <= '9')
}

/// Unicode general category `Cc`, as `char::is_control` defines it.
pub open spec fn is_control_char(c: char) -> bool {
    ||| c <= '\u{1f}'
    ||| '\u{7f}' <= c <= '\u{9f}'
}

/// Whether `c` is a control character.
pub fn control_char(c: char) -> (r: bool)
    ensures
        r == is_control_char(c),
{
    c <= '\u{1f}' || ('\u{7f}' <= c && c <= '\u{9f}')
}

/// Appends one character to a string (`String::push`).
#[verifier::external_body]
pub(crate) fn push_char(s: &mut String, c: char)
    ensures
        final(s)@ == old(s)@.push(c),
{
    s.push(c)
}

/// Whether `needle` occurs in `haystack` at position `i`.
pub open spec fn occurs_at(haystack: Seq<char>, needle: Seq<char>, i: int) -> bool {
    0 <= i && i + needle.len() <= haystack.len() && haystack.subrange(i, i + needle.len())
        == needle
}

/// Whether `needle` occurs anywhere in `haystack`.
pub open spec fn contains_seq(haystack: Seq<char>, needle: Seq<char>) -> bool {
    exists|i: int| occurs_at(haystack, needle, i)
}

/// Whether `needle` is a substring of `haystack` (`str::contains` with a string pattern).
pub fn contains_str(haystack: &str, needle: &str) -> (r: bool)
    ensures
        r == contains_seq(haystack@, needle@),
{
    let n = haystack.unicode_len();
    let m = needle.unicode_len();
    if m > n {
        assert forall|i: int| !occurs_at(haystack@, needle@, i) by {}
        return false;
    }
    if m == 0 {
        assert(haystack@.subrange(0, 0) =~= needle@);
        assert(occurs_at(haystack@, needle@, 0));
        return true;
    }
    let mut i: usize = 0;
    while i <= n - m
        invariant
            n == haystack@.len(),
            m == needle@.len(),
            0 < m <= n,
            i <= n - m + 1,
            forall|k: int| 0 <= k < i ==> !occurs_at(haystack@, needle@, k),
        decreases n - m + 1 - i,
    {
        let mut j: usize = 0;
        let mut matched = true;
        while j < m
            invariant
                n == haystack@.len(),
                m == needle@.len(),
                i + m <= n,
                j <= m,
                matched ==> forall|k: int| 0 <= k < j ==> haystack@[i + k] == needle@[k],
                !matched ==> !occurs_at(haystack@, needle@, i as int),
            decreases m - j,
        {
            if matched && haystack.get_char(i + j) != needle.get_char(j) {
                matched = false;
                assert(haystack@.subrange(i as int, i + m)[j as int] != needle@[j as int]);
            }
            j += 1;
        }
        if matched {
            assert(haystack@.subrange(i as int, i + m) =~= needle@);
            assert(occurs_at(haystack@, needle@, i as int));
            return true;
        }
        i += 1;
    }
    assert forall|k: int| !occurs_at(haystack@, needle@, k) by {
        if 0 <= k && k + m <= n {
            assert(k < i);
        }
    }
    false
}

} // verus!

verus! {

pub open spec fn is_digit(c: char) -> bool {
    '0' <= c <= '9'
}

pub open spec fn digit_value(c: char) -> nat {
    (c as nat - '0' as nat) as nat
}

pub open spec fn digit_char(d: nat) -> char
    recommends
        d < 10,
{
    (d + '0' as nat) as char
}

/// The number a string of decimal digits denotes.
pub open spec fn digits_value(s: Seq<char>) -> nat
    decreases s.len(),
{
    if s.len() == 0 {
        0
    } else {
        digits_value(s.drop_last()) * 10 + digit_value(s.last())
    }
}

/// The part of a number's text that holds its digits: everything after an optional `+`.
pub open spec fn unsigned_digits(s: Seq<char>) -> Seq<char> {
    if s.len() > 0 && s[0] == '+' {
        s.drop_first()
    } else {
        s
    }
}

pub open spec fn all_digits(s: Seq<char>) -> bool {
    forall|i: int| 0 <= i < s.len() ==> is_digit(#[trigger] s[i])
}

/// What `str::parse` gives for an unsigned integer of unbounded width: an optional
/// `+` followed by at least one decimal digit, nothing else.
pub open spec fn parse_unsigned(s: Seq<char>) -> Option<nat> {
    let digits = unsigned_digits(s);
    if digits.len() > 0 && all_digits(digits) {
        Some(digits_value(digits))
    } else {
        None
    }
}

/// Parses an unsigned integer that must not exceed `max` (`str::parse` for an
/// unsigned type whose largest value is `max`).
pub fn parse_bounded(s: &str, max: u64) -> (r: Option<u64>)
    ensures
        match r {
            Some(v) => parse_unsigned(s@) == Some(v as nat) && v <= max,
            None => match parse_unsigned(s@) {
                Some(v) => v > max,
                None => true,
            },
        },
{
    let n = s.unicode_len();
    let start: usize = if n > 0 && s.get_char(0) == '+' {
        1
    } else {
        0
    };
    let ghost digits = unsigned_digits(s@);
    assert(digits =~= s@.subrange(start as int, n as int));
    if start >= n {
        return None;
    }
    let mut value: u64 = 0;
    let mut i: usize = start;
    while i < n
        invariant
            n == s@.len(),
            start <= i <= n,
            digits == unsigned_digits(s@),
            digits =~= s@.subrange(start as int, n as int),
            forall|k: int| start <= k < i ==> is_digit(#[trigger] s@[k]),
            value == digits_value(s@.subrange(start as int, i as int)),
            value <= max,
        decreases n - i,
    {
        let c = s.get_char(i);
        let ghost prefix = s@.subrange(start as int, i + 1);
        assert(prefix.drop_last() =~= s@.subrange(start as int, i as int));
        if c < '0' || c > '9' {
            assert(digits[(i - start) as int] == c);
            assert(!all_digits(digits));
            return None;
        }
        let d = (c as u32 - '0' as u32) as u64;
        assert(digits_value(prefix) == value * 10 + d);
        if d > max || value > (max - d) / 10 {
            proof {
                if d <= max {
                    assert(value * 10 + d > max) by (nonlinear_arith)
                        requires
                            value > (max - d) / 10,
                            d <= max,
                    ;
                }
                if all_digits(digits) {
                    lemma_digits_prefix_bound(digits, (i + 1 - start) as int);
                    assert(digits.subrange(0, (i + 1 - start) as int) =~= prefix);
                }
            }
            return None;
        }
        proof {
            assert(value * 10 + d <= max) by (nonlinear_arith)
                requires
                    value <= (max - d) / 10,
                    d <= 9,
            ;
        }
        value = value * 10 + d;
        i += 1;
    }
    assert(s@.subrange(start as int, n as int) =~= digits);
    assert(all_digits(digits));
    Some(value)
}

/// A digit string is worth at least any of its prefixes.
proof fn lemma_digits_prefix_bound(s: Seq<char>, k: int)
    requires
        0 <= k <= s.len(),
        all_digits(s),
    ensures
        digits_value(s) >= digits_value(s.subrange(0, k)),
    decreases s.len() - k,
{
    if k < s.len() {
        lemma_digits_prefix_bound(s, k + 1);
        assert(s.subrange(0, k + 1).drop_last() =~= s.subrange(0, k));
    } else {
        assert(s.subrange(0, k) =~= s);
    }
}

/// Decimal digits of `n`, most significant first, without leading zeros.
pub open spec fn spec_decimal(n: nat) -> Seq<char>
    decreases n,
{
    if n < 10 {
        seq![digit_char(n)]
    } else {
        spec_decimal(n / 10).push(digit_char(n % 10))
    }
}

/// Renders `n` in decimal, as `Display` does for unsigned integers.
pub fn decimal(n: u64) -> (r: String)
    ensures
        r@ == spec_decimal(n as nat),
{
    let mut digits: Vec<char> = Vec::new();
    let mut m: u64 = n;
    // Digits are produced least significant first.
    while m >= 10
        invariant
            spec_decimal(n as nat) == spec_decimal(m as nat) + digits@.reverse(),
        decreases m,
    {
        let c = char_of_digit(m % 10);
        proof {
            assert(spec_decimal(m as nat) == spec_decimal((m / 10) as nat).push(c));
        }
        let ghost before = digits@;
        digits.push(c);
        proof {
            assert(digits@.reverse() =~= seq![c] + before.reverse());
            assert(spec_decimal((m / 10) as nat).push(c) + before.reverse() =~= spec_decimal(
                (m / 10) as nat,
            ) + digits@.reverse());
        }
        m = m / 10;
    }
    let c = char_of_digit(m);
    let ghost before = digits@;
    digits.push(c);
    proof {
        assert(digits@.reverse() =~= seq![c] + before.reverse());
        assert(spec_decimal(m as nat) == seq![c]);
    }
    let mut out = String::new();
    let mut k: usize = digits.len();
    while k > 0
        invariant
            k <= digits@.len(),
            spec_decimal(n as nat) == digits@.reverse(),
            out@ =~= digits@.reverse().subrange(0, (digits@.len() - k) as int),
        decreases k,
    {
        k -= 1;
        let ghost before = out@;
        push_char(&mut out, digits[k]);
        assert(digits@.reverse()[(digits@.len() - k - 1) as int] == digits@[k as int]);
        assert(out@ =~= digits@.reverse().subrange(0, (digits@.len() - k) as int));
    }
    out
}

fn char_of_digit(d: u64) -> (c: char)
    requires
        d < 10,
    ensures
        c == digit_char(d as nat),
{
    match d {
        0 => '0',
        1 => '1',
        2 => '2',
        3 => '3',
        4 => '4',
        5 => '5',
        6 => '6',
        7 => '7',
        8 => '8',
        _ => '9',
    }
}

} // verus!

verus! {

/// What `str::to_lowercase` makes of a string (full Unicode case mapping).
pub uninterp spec fn lowercase(s: Seq<char>) -> Seq<char>;

/// Lowercases a string. Wraps `str::to_lowercase`; the result is only known as
/// `lowercase` of the input, which the Unicode case tables define.
#[verifier::external_body]
pub(crate) fn to_lowercase(s: &str) -> (r: String)
    ensures
        r@ == lowercase(s@),
{
    s.to_lowercase()
}

/// What `str::to_uppercase` makes of a string (full Unicode case mapping).
pub uninterp spec fn uppercase(s: Seq<char>) -> Seq<char>;

/// Uppercases a string. Wraps `str::to_uppercase`; the result is only known as
/// `uppercase` of the input.
#[verifier::external_body]
pub(crate) fn to_uppercase(s: &str) -> (r: String)
    ensures
        r@ == uppercase(s@),
{
    s.to_uppercase()
}

/// The first `n` characters of `s` (all of it when shorter).
pub open spec fn prefix_chars(s: Seq<char>, n: nat) -> Seq<char> {
    if s.len() < n {
        s
    } else {
        s.take(n as int)
    }
}

/// The first `n` characters of a string, as a new string.
pub fn take_chars(s: &str, n: usize) -> (r: String)
    ensures
        r@ == prefix_chars(s@, n as nat),
{
    let len = s.unicode_len();
    let end = if len < n {
        len
    } else {
        n
    };
    let r = String::from_str(s.substring_char(0, end));
    assert(len < n ==> s@.subrange(0, end as int) =~= s@);
    r
}

/// Whether every character of `s` is an ASCII letter, digit or underscore.
pub open spec fn is_identifier_text(s: Seq<char>) -> bool {
    forall|i: int| 0 <= i < s.len() ==> is_ascii_alnum(#[trigger] s[i]) || s[i] == '_'
}

/// The characters of `s` that are ASCII letters, digits or underscores, in order.
pub open spec fn identifier_chars(s: Seq<char>) -> Seq<char> {
    s.filter(|c: char| is_ascii_alnum(c) || c == '_')
}

/// Keeps only ASCII letters, digits and underscores.
pub fn keep_identifier_chars(s: &str) -> (r: String)
    ensures
        r@ == identifier_chars(s@),
{
    let n = s.unicode_len();
    let mut out = String::new();
    let mut i: usize = 0;
    while i < n
        invariant
            n == s@.len(),
            i <= n,
            out@ == s@.take(i as int).filter(|c: char| is_ascii_alnum(c) || c == '_'),
        decreases n - i,
    {
        proof {
            reveal_with_fuel(Seq::<_>::filter, 1);
            assert(s@.take(i + 1).drop_last() =~= s@.take(i as int));
        }
        let c = s.get_char(i);
        if ascii_alnum(c) || c == '_' {
            push_char(&mut out, c);
        }
        i += 1;
    }
    assert(s@.take(n as int) =~= s@);
    out
}

/// Whether `c` occurs in `s`.
pub fn has_char(s: &str, c: char) -> (r: bool)
    ensures
        r == s@.contains(c),
{
    let n = s.unicode_len();
    let mut i: usize = 0;
    while i < n
        invariant
            n == s@.len(),
            i <= n,
            forall|k: int| 0 <= k < i ==> s@[k] != c,
        decreases n - i,
    {
        if s.get_char(i) == c {
            assert(s@[i as int] == c);
            return true;
        }
        i += 1;
    }
    false
}

} // verus!

verus! {

/// Bytes UTF-8 uses for a character.
pub open spec fn utf8_width(c: char) -> nat {
    if c as u32 <= 0x7f {
        1
    } else if c as u32 <= 0x7ff {
        2
    } else if c as u32 <= 0xffff {
        3
    } else {
        4
    }
}

/// Length in bytes of the UTF-8 encoding of a string (`str::len`).
pub open spec fn utf8_len(s: Seq<char>) -> nat
    decreases s.len(),
{
    if s.len() == 0 {
        0
    } else {
        utf8_len(s.drop_last()) + utf8_width(s.last())
    }
}

/// A prefix's encoding is no longer than the whole string's.
pub proof fn lemma_utf8_len_prefix(s: Seq<char>, k: int)
    requires
        0 <= k <= s.len(),
    ensures
        utf8_len(s.take(k)) <= utf8_len(s),
    decreases s.len() - k,
{
    if k < s.len() {
        lemma_utf8_len_prefix(s, k + 1);
        assert(s.take(k + 1).drop_last() =~= s.take(k));
    } else {
        assert(s.take(k) =~= s);
    }
}

/// A character takes at most four bytes in UTF-8.
pub proof fn lemma_utf8_len_bound(s: Seq<char>)
    ensures
        utf8_len(s) <= 4 * s.len(),
    decreases s.len(),
{
    if s.len() > 0 {
        lemma_utf8_len_bound(s.drop_last());
    }
}

/// Whether a string's UTF-8 encoding is shorter than `limit` bytes (`s.len() < limit`).
pub fn utf8_len_below(s: &str, limit: u64) -> (r: bool)
    ensures
        r == (utf8_len(s@) < limit),
{
    if limit == 0 {
        return false;
    }
    let n = s.unicode_len();
    let mut total: u64 = 0;
    let mut i: usize = 0;
    assert(s@.take(0) =~= Seq::<char>::empty());
    while i < n
        invariant
            n == s@.len(),
            i <= n,
            total == utf8_len(s@.take(i as int)),
            total < limit,
        decreases n - i,
    {
        assert(s@.take(i + 1).drop_last() =~= s@.take(i as int));
        let c = s.get_char(i);
        let w: u64 = if (c as u32) <= 0x7f {
            1
        } else if (c as u32) <= 0x7ff {
            2
        } else if (c as u32) <= 0xffff {
            3
        } else {
            4
        };
        if w >= limit - total {
            proof {
                lemma_utf8_len_prefix(s@, i + 1);
            }
            return false;
        }
        total = total + w;
        i += 1;
    }
    assert(s@.take(n as int) =~= s@);
    true
}

/// `s` without the slashes it ends with.
pub open spec fn without_trailing_slashes(s: Seq<char>) -> Seq<char>
    decreases s.len(),
{
    if s.len() > 0 && s.last() == '/' {
        without_trailing_slashes(s.drop_last())
    } else {
        s
    }
}

proof fn lemma_without_trailing_slashes(s: Seq<char>, k: int)
    requires
        0 <= k <= s.len(),
        forall|i: int| k <= i < s.len() ==> s[i] == '/',
    ensures
        without_trailing_slashes(s) == without_trailing_slashes(s.subrange(0, k)),
    decreases s.len() - k,
{
    if k < s.len() {
        assert(s.drop_last() =~= s.subrange(0, s.len() - 1));
        assert(s.subrange(0, s.len() - 1).subrange(0, k) =~= s.subrange(0, k));
        lemma_without_trailing_slashes(s.drop_last(), k);
    } else {
        assert(s.subrange(0, k) =~= s);
    }
}

/// Removes the slashes `s` ends with.
pub fn trim_trailing_slashes(s: &str) -> (r: String)
    ensures
        r@ == without_trailing_slashes(s@),
{
    let mut end: usize = s.unicode_len();
    while end > 0 && s.get_char(end - 1) == '/'
        invariant
            end <= s@.len(),
            forall|i: int| end <= i < s@.len() ==> s@[i] == '/',
        decreases end,
    {
        end = end - 1;
    }
    proof {
        lemma_without_trailing_slashes(s@, end as int);
        let t = s@.subrange(0, end as int);
        if t.len() > 0 {
            assert(t.last() == s@[end - 1]);
        }
    }
    String::from_str(s.substring_char(0, end))
}

/// `c` with ASCII capitals made small; other characters unchanged.
pub open spec fn ascii_fold(c: char) -> char {
    if 'A' <= c <= 'Z' {
        ((c as u8) + 32u8) as char
    } else {
        c
    }
}

fn fold_char(c: char) -> (r: char)
    ensures
        r == ascii_fold(c),
{
    if 'A' <= c && c <= 'Z' {
        let code: u8 = c as u8 + 32;
        code as char
    } else {
        c
    }
}

/// Two strings equal up to ASCII case (`str::eq_ignore_ascii_case`).
pub open spec fn same_ignoring_ascii_case(a: Seq<char>, b: Seq<char>) -> bool {
    a.len() == b.len() && forall|i: int| 0 <= i < a.len() ==> ascii_fold(#[trigger] a[i]) == ascii_fold(b[i])
}

pub fn eq_ignore_ascii_case(a: &str, b: &str) -> (r: bool)
    ensures
        r == same_ignoring_ascii_case(a@, b@),
{
    let n = a.unicode_len();
    if n != b.unicode_len() {
        return false;
    }
    let mut i: usize = 0;
    while i < n
        invariant
            n == a@.len(),
            n == b@.len(),
            i <= n,
            forall|k: int| 0 <= k < i ==> ascii_fold(#[trigger] a@[k]) == ascii_fold(b@[k]),
        decreases n - i,
    {
        if fold_char(a.get_char(i)) != fold_char(b.get_char(i)) {
            return false;
        }
        i += 1;
    }
    true
}

} // verus!
