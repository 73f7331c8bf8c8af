//! Character-level helpers on strings.

use vstd::prelude::*;

verus! {

/// Whether two strings hold the same characters.
pub fn same_text(a: &str, b: &str) -> (r: bool)
    ensures
        r == (a@ == b@),
{
    let n = a.unicode_len();
    if n != b.unicode_len() {
        return false;
    }
    let mut i: usize = 0;
    while i < n
        invariant
            n == a@.len(),
            n == b@.len(),
            i <= n,
            forall|j: int| 0 <= j < i ==> a@[j] == b@[j],
        decreases n - i,
    {
        if a.get_char(i) != b.get_char(i) {
            return false;
        }
        i = i + 1;
    }
    assert(a@ =~= b@);
    true
}

/// Calls `String::push`: the character is appended at the end.
#[verifier::external_body]
pub(crate) fn push_char(s: &mut String, c: char)
    ensures
        final(s)@ == old(s)@.push(c),
{
    s.push(c);
}

/// What `str::to_lowercase` gives for a string: its lowercase equivalent by the
/// Unicode `Lowercase` property, which takes tables to state.
pub uninterp spec fn lowercase_of(s: Seq<char>) -> Seq<char>;

/// Calls `str::to_lowercase`; the result is named by `lowercase_of` of the
/// argument's characters, and nothing more is claimed of it.
#[verifier::external_body]
pub(crate) fn lowercase(s: &str) -> (r: String)
    ensures
        r@ == lowercase_of(s@),
{
    s.to_lowercase()
}

/// Whether the separator " | " starts at position `i` of `s`.
pub open spec fn separator_at(s: Seq<char>, i: int) -> bool {
    &&& 0 <= i
    &&& i + 3 <= s.len()
    &&& s[i] == ' '
    &&& s[i + 1] == '|'
    &&& s[i + 2] == ' '
}

/// Whether `i` is the first position at which " | " starts in `s`.
pub open spec fn first_separator_at(s: Seq<char>, i: int) -> bool {
    separator_at(s, i) && forall|j: int| 0 <= j < i ==> !separator_at(s, j)
}

/// The part of `s` before the first " | ", or all of `s` when it has none:
/// the first piece that splitting `s` at " | " gives.
pub open spec fn leading_field(s: Seq<char>) -> Seq<char> {
    if exists|i: int| first_separator_at(s, i) {
        s.take(choose|i: int| first_separator_at(s, i))
    } else {
        s
    }
}

/// The part of `s` before the first " | ", or all of `s` when it has none.
pub fn leading_field_of(s: &str) -> (r: String)
    ensures
        r@ == leading_field(s@),
{
    let n = s.unicode_len();
    let mut i: usize = 0;
    while n - i >= 3
        invariant
            n == s@.len(),
            i <= n,
            forall|j: int| 0 <= j < i ==> !separator_at(s@, j),
        decreases n - i,
    {
        if s.get_char(i) == ' ' && s.get_char(i + 1) == '|' && s.get_char(i + 2) == ' ' {
            assert(first_separator_at(s@, i as int));
            let k = i;
            proof {
                let c = choose|c: int| first_separator_at(s@, c);
                assert(first_separator_at(s@, c));
                if c < k {
                    assert(!separator_at(s@, c));
                } else if c > k {
                    assert(!separator_at(s@, k as int));
                }
                assert(c == k);
            }
            let head = s.substring_char(0, k);
            return String::from_str(head);
        }
        i = i + 1;
    }
    assert forall|j: int| !first_separator_at(s@, j) by {
        if first_separator_at(s@, j) {
            assert(separator_at(s@, j));
        }
    }
    assert(s@.subrange(0, n as int) =~= s@);
    String::from_str(s.substring_char(0, n))
}

/// Whether `c` is a decimal digit.
pub open spec fn is_digit(c: char) -> bool {
    '0' <= c && c <= '9'
}

/// The number that a run of decimal digits spells.
pub open spec fn digits_value(s: Seq<char>) -> nat
    decreases s.len(),
{
    if s.len() == 0 {
        0
    } else {
        digits_value(s.drop_last()) * 10 + ((s.last() as nat) - ('0' as nat)) as nat
    }
}

/// The digits that `usize::from_str` reads: a single leading '+' is skipped
/// when something follows it.
pub open spec fn unsigned_digits(s: Seq<char>) -> Seq<char> {
    if s.len() > 1 && s[0] == '+' {
        s.drop_first()
    } else {
        s
    }
}

/// Whether `usize::from_str` accepts `s`: one or more digits, after an
/// optional '+', whose value fits in a `usize`.
pub open spec fn reads_as_usize(s: Seq<char>) -> bool {
    let d = unsigned_digits(s);
    &&& d.len() > 0
    &&& forall|i: int| 0 <= i < d.len() ==> is_digit(#[trigger] d[i])
    &&& digits_value(d) <= usize::MAX
}

/// The number read from `s`, or 0 where `usize::from_str` refuses it.
pub open spec fn usize_or_zero(s: Seq<char>) -> nat {
    if reads_as_usize(s) {
        digits_value(unsigned_digits(s))
    } else {
        0
    }
}

/// Appending digits never makes the value smaller.
proof fn lemma_digits_value_grows(s: Seq<char>, k: int)
    requires
        0 <= k <= s.len(),
        forall|i: int| 0 <= i < s.len() ==> is_digit(#[trigger] s[i]),
    ensures
        digits_value(s.take(k)) <= digits_value(s),
    decreases s.len(),
{
    if k < s.len() {
        assert(s.drop_last().take(k) =~= s.take(k));
        lemma_digits_value_grows(s.drop_last(), k);
    } else {
        assert(s.take(k) =~= s);
    }
}

/// Reads a `usize` as `parse::<usize>().unwrap_or_default()` does: the number
/// that `s` spells, or 0 where `s` is not a number that fits.
pub fn parse_usize_or_zero(s: &str) -> (r: usize)
    ensures
        r == usize_or_zero(s@),
{
    let n = s.unicode_len();
    let start: usize = if n > 1 && s.get_char(0) == '+' { 1 } else { 0 };
    let ghost d = unsigned_digits(s@);
    assert(d =~= s@.subrange(start as int, n as int));
    if start == n {
        return 0;
    }
    let mut acc: usize = 0;
    let mut i: usize = start;
    while i < n
        invariant
            n == s@.len(),
            start <= i <= n,
            d == s@.subrange(start as int, n as int),
            d == unsigned_digits(s@),
            forall|j: int| 0 <= j < i - start ==> is_digit(#[trigger] d[j]),
            acc == digits_value(d.take(i - start)),
        decreases n - i,
    {
        let c = s.get_char(i);
        if !('0' <= c && c <= '9') {
            assert(!is_digit(d[i - start]));
            return 0;
        }
        let digit: usize = ((c as u32) - ('0' as u32)) as usize;
        assert(d[i - start] == c);
        assert(d.take(i - start + 1).drop_last() =~= d.take(i - start));
        assert(d.take(i - start + 1).last() == c);
        assert(digits_value(d.take(i - start + 1)) == acc * 10 + digit);
        let shifted = acc.checked_mul(10);
        match shifted {
            Some(m) => {
                match m.checked_add(digit) {
                    Some(v) => {
                        acc = v;
                    },
                    None => {
                        proof { lemma_overflow_refused(d, (i - start + 1) as int); }
                        return 0;
                    },
                }
            },
            None => {
                proof { lemma_overflow_refused(d, (i - start + 1) as int); }
                return 0;
            },
        }
        i = i + 1;
    }
    assert(d.take(n - start) =~= d);
    acc
}

/// Once a prefix of digits spells more than `usize::MAX`, the whole is refused.
proof fn lemma_overflow_refused(d: Seq<char>, k: int)
    requires
        0 <= k <= d.len(),
        digits_value(d.take(k)) > usize::MAX,
        forall|j: int| 0 <= j < k ==> is_digit(#[trigger] d[j]),
    ensures
        !(forall|i: int| 0 <= i < d.len() ==> is_digit(#[trigger] d[i])) || digits_value(d) > usize::MAX,
{
    if forall|i: int| 0 <= i < d.len() ==> is_digit(#[trigger] d[i]) {
        lemma_digits_value_grows(d, k);
    }
}

} // verus!
