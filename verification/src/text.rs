//! Character-level helpers for names and paths.

use vstd::prelude::*;

verus! {

/// The separator between the components of a path.
pub open spec fn separator() -> char {
    '/'
}

/// `base` extended by the relative path `name`: one separator is put between
/// the two unless `base` already ends in one, and an empty `base` leaves
/// `name` as it is.
pub open spec fn joined(base: Seq<char>, name: Seq<char>) -> Seq<char> {
    if base.len() == 0 {
        name
    } else if base.last() == separator() {
        base + name
    } else {
        base + seq![separator()] + name
    }
}

/// Whether `c` is one of the ten ASCII digits.
pub open spec fn is_digit(c: char) -> bool {
    '0' <= c && c <= '9'
}

/// The number that the digit `c` stands for.
pub open spec fn digit_value(c: char) -> nat {
    (c as u32 - '0' as u32) as nat
}

/// Whether `s` holds digits only.
pub open spec fn all_digits(s: Seq<char>) -> bool {
    forall|i: int| 0 <= i < s.len() ==> is_digit(#[trigger] s[i])
}

/// The number written by the digits `s`, most significant first.
pub open spec fn decimal_value(s: Seq<char>) -> nat
    decreases s.len(),
{
    if s.len() == 0 {
        0
    } else {
        10 * decimal_value(s.drop_last()) + digit_value(s.last())
    }
}

/// `s` without one leading plus sign.
pub open spec fn without_sign(s: Seq<char>) -> Seq<char> {
    if s.len() > 0 && s[0] == '+' {
        s.drop_first()
    } else {
        s
    }
}

/// The unsigned 64-bit number that `s` denotes: an optional plus sign, then
/// one or more digits whose value fits. Anything else denotes no number.
pub open spec fn parsed_number(s: Seq<char>) -> Option<u64> {
    let digits = without_sign(s);
    if digits.len() > 0 && all_digits(digits) && decimal_value(digits) <= u64::MAX {
        Some(decimal_value(digits) as u64)
    } else {
        None
    }
}

/// The part of the relative path `s` before its last separator, if it has one.
pub open spec fn parent_of(s: Seq<char>) -> Option<Seq<char>> {
    if s.contains(separator()) {
        Some(s.subrange(0, last_separator(s)))
    } else {
        None
    }
}

/// The index of the last separator in `s`; `-1` when there is none.
pub open spec fn last_separator(s: Seq<char>) -> int
    decreases s.len(),
{
    if s.len() == 0 {
        -1
    } else if s.last() == separator() {
        s.len() - 1
    } else {
        last_separator(s.drop_last())
    }
}

/// A longer run of digits never denotes a smaller number than its prefix.
pub proof fn lemma_decimal_value_grows(s: Seq<char>, n: int)
    requires
        0 <= n <= s.len(),
    ensures
        decimal_value(s.subrange(0, n)) <= decimal_value(s),
    decreases s.len(),
{
    if n == s.len() {
        assert(s.subrange(0, n) == s);
    } else {
        assert(s.drop_last().subrange(0, n) == s.subrange(0, n));
        lemma_decimal_value_grows(s.drop_last(), n);
    }
}

/// What `last_separator` finds: a separator with none after it, or nothing
/// where the sequence holds none.
pub proof fn lemma_last_separator(s: Seq<char>)
    ensures
        -1 <= last_separator(s) < s.len(),
        last_separator(s) >= 0 <==> s.contains(separator()),
        last_separator(s) >= 0 ==> s[last_separator(s)] == separator(),
        forall|i: int| last_separator(s) < i < s.len() ==> s[i] != separator(),
    decreases s.len(),
{
    if s.len() == 0 {
    } else if s.last() == separator() {
        assert(s[s.len() - 1] == separator());
    } else {
        let t = s.drop_last();
        lemma_last_separator(t);
        if t.contains(separator()) {
            let i = choose|i: int| 0 <= i < t.len() && t[i] == separator();
            assert(s[i] == separator());
        }
        if s.contains(separator()) {
            let i = choose|i: int| 0 <= i < s.len() && s[i] == separator();
            assert(t[i] == separator());
        }
        assert forall|i: int| last_separator(s) < i < s.len() implies s[i] != separator() by {
            if i < t.len() {
                assert(t[i] == s[i]);
            }
        }
    }
}

/// Whether `text` begins with `prefix`.
pub fn starts_with(text: &str, prefix: &str) -> (found: bool)
    ensures
        found == prefix@.is_prefix_of(text@),
{
    let n = prefix.unicode_len();
    let m = text.unicode_len();
    if n > m {
        return false;
    }
    let mut i: usize = 0;
    while i < n
        invariant
            n == prefix@.len(),
            m == text@.len(),
            n <= m,
            i <= n,
            forall|j: int| 0 <= j < i ==> text@[j] == prefix@[j],
        decreases n - i,
    {
        if text.get_char(i) != prefix.get_char(i) {
            assert(text@.subrange(0, n as int)[i as int] != prefix@[i as int]);
            return false;
        }
        i += 1;
    }
    assert(prefix@ =~= text@.subrange(0, n as int));
    true
}

/// Whether the two texts hold the same characters.
pub fn same_text(a: &str, b: &str) -> (same: bool)
    ensures
        same == (a@ == b@),
{
    let n = a.unicode_len();
    if n != b.unicode_len() {
        return false;
    }
    let found = starts_with(a, b);
    proof {
        if found {
            assert(a@.subrange(0, n as int) =~= a@);
        }
    }
    found
}

/// `base` extended by the relative path `name`.
pub fn join(base: &str, name: &str) -> (path: String)
    ensures
        path@ == joined(base@, name@),
{
    let n = base.unicode_len();
    if n == 0 {
        return name.to_owned();
    }
    let mut path = base.to_owned();
    if base.get_char(n - 1) != '/' {
        path.append("/");
        proof {
            reveal_strlit("/");
            assert("/"@ =~= seq![separator()]);
        }
    }
    path.append(name);
    path
}

/// `head` followed by `tail`.
pub fn appended(head: &str, tail: &str) -> (text: String)
    ensures
        text@ == head@ + tail@,
{
    let mut text = head.to_owned();
    text.append(tail);
    text
}

/// Reads an unsigned decimal number: an optional plus sign, then digits.
pub fn parse_number(text: &str) -> (number: Option<u64>)
    ensures
        number == parsed_number(text@),
{
    let n = text.unicode_len();
    let start: usize = if n > 0 && text.get_char(0) == '+' { 1 } else { 0 };
    let ghost digits = without_sign(text@);
    assert(digits =~= text@.subrange(start as int, n as int));
    if start == n {
        return None;
    }
    let mut value: u64 = 0;
    let mut i: usize = start;
    while i < n
        invariant
            n == text@.len(),
            start <= i <= n,
            digits == without_sign(text@),
            digits == text@.subrange(start as int, n as int),
            all_digits(digits.subrange(0, i - start)),
            value == decimal_value(digits.subrange(0, i - start)),
        decreases n - i,
    {
        let c = text.get_char(i);
        let ghost before = digits.subrange(0, i - start);
        let ghost upto = digits.subrange(0, i - start + 1);
        assert(upto.drop_last() =~= before);
        assert(upto.last() == c);
        if !(c >= '0' && c <= '9') {
            assert(!is_digit(digits[i - start]));
            return None;
        }
        let d: u64 = (c as u32 - '0' as u32) as u64;
        assert(d == digit_value(c));
        if value > (u64::MAX - d) / 10 {
            proof {
                assert(decimal_value(upto) > u64::MAX);
                lemma_decimal_value_grows(digits, i - start + 1);
            }
            return None;
        }
        value = value * 10 + d;
        assert forall|j: int| 0 <= j < upto.len() implies is_digit(#[trigger] upto[j]) by {
            if j < before.len() {
                assert(upto[j] == before[j]);
            }
        }
        i += 1;
    }
    assert(digits.subrange(0, n - start) =~= digits);
    Some(value)
}

/// The part of a relative path before its last separator, if it has one.
pub fn parent(path: &str) -> (dir: Option<String>)
    ensures
        dir.is_some() == parent_of(path@).is_some(),
        dir.is_some() ==> dir.unwrap()@ == parent_of(path@).unwrap(),
{
    let n = path.unicode_len();
    let mut i: usize = n;
    proof {
        lemma_last_separator(path@);
    }
    while i > 0
        invariant
            n == path@.len(),
            i <= n,
            forall|j: int| i <= j < n ==> path@[j] != separator(),
        decreases i,
    {
        if path.get_char(i - 1) == '/' {
            proof {
                lemma_last_separator(path@);
                assert(path@[i - 1] == separator());
                assert(last_separator(path@) == i - 1);
            }
            return Some(path.substring_char(0, i - 1).to_owned());
        }
        i -= 1;
    }
    proof {
        lemma_last_separator(path@);
        if path@.contains(separator()) {
            let k = choose|k: int| 0 <= k < path@.len() && path@[k] == separator();
            assert(false);
        }
    }
    None
}

} // verus!
