//! The MAC address notation: twelve hexadecimal digits, in either case, with
//! colons, dashes, dots and spaces allowed anywhere between them.

use crate::text::upper_char;
use vstd::prelude::*;

verus! {

/// The characters that may separate the digits of a MAC address.
pub open spec fn is_separator(c: char) -> bool {
    c == ':' || c == '-' || c == '.' || c == ' '
}

/// The predicate that keeps everything but separators.
pub open spec fn keeps_digit() -> spec_fn(char) -> bool {
    |c: char| !is_separator(c)
}

/// `s` with every separator removed.
pub open spec fn strip_separators(s: Seq<char>) -> Seq<char> {
    s.filter(keeps_digit())
}

/// The value of a hexadecimal digit, in either case.
pub open spec fn hex_value(c: char) -> Option<u8> {
    if '0' <= c && c <= '9' {
        Some((c as u32 - '0' as u32) as u8)
    } else if 'a' <= c && c <= 'f' {
        Some((c as u32 - 'a' as u32 + 10) as u8)
    } else if 'A' <= c && c <= 'F' {
        Some((c as u32 - 'A' as u32 + 10) as u8)
    } else {
        None
    }
}

pub open spec fn is_hex_digit(c: char) -> bool {
    hex_value(c) is Some
}

/// Whether every character of `digits` is a hexadecimal digit.
pub open spec fn all_hex(digits: Seq<char>) -> bool {
    forall|i: int| 0 <= i < digits.len() ==> is_hex_digit(#[trigger] digits[i])
}

/// A string denotes a MAC address when twelve hexadecimal digits are left
/// once its separators are removed.
pub open spec fn valid_mac(s: Seq<char>) -> bool {
    strip_separators(s).len() == 12 && all_hex(strip_separators(s))
}

/// The byte that the `k`-th pair of `digits` denotes.
pub open spec fn pair_value(digits: Seq<char>, k: int) -> u8
    recommends
        0 <= k,
        2 * k + 1 < digits.len(),
{
    (hex_value(digits[2 * k])->0 * 16 + hex_value(digits[2 * k + 1])->0) as u8
}

/// The six bytes that a valid MAC address string denotes.
pub open spec fn mac_bytes(s: Seq<char>) -> Seq<u8>
    recommends
        valid_mac(s),
{
    Seq::new(6, |k: int| pair_value(strip_separators(s), k))
}

/// Why a string is not a MAC address.
#[derive(Debug, Clone, Copy, PartialEq, Eq)]
pub enum MacFault {
    /// The digits are not twelve in number.
    Length,
    /// Twelve characters are left, and one of them is no hexadecimal digit.
    Digit,
}

impl MacFault {
    /// The fault in words.
    pub open spec fn reason_spec(&self) -> Seq<char> {
        match self {
            MacFault::Length => "MAC address must be 12 hex digits"@,
            MacFault::Digit => "Invalid hex digit"@,
        }
    }

    /// The fault in words.
    pub fn reason(&self) -> (r: String)
        ensures
            r@ == self.reason_spec(),
    {
        match self {
            MacFault::Length => String::from_str("MAC address must be 12 hex digits"),
            MacFault::Digit => String::from_str("Invalid hex digit"),
        }
    }
}

pub fn is_separator_char(c: char) -> (r: bool)
    ensures
        r == is_separator(c),
{
    c == ':' || c == '-' || c == '.' || c == ' '
}

/// The value of `c` as a hexadecimal digit, if it is one.
pub fn hex_digit(c: char) -> (r: Option<u8>)
    ensures
        r == hex_value(c),
        r matches Some(v) ==> v < 16,
{
    if '0' <= c && c <= '9' {
        Some((c as u32 - '0' as u32) as u8)
    } else if 'a' <= c && c <= 'f' {
        Some((c as u32 - 'a' as u32 + 10) as u8)
    } else if 'A' <= c && c <= 'F' {
        Some((c as u32 - 'A' as u32 + 10) as u8)
    } else {
        None
    }
}

/// The characters of `s` that are not separators, in order.
pub fn digits_of(s: &str) -> (v: Vec<char>)
    ensures
        v@ == strip_separators(s@),
{
    let mut v: Vec<char> = Vec::new();
    proof {
        reveal(Seq::filter);
    }
    for c in it: s.chars()
        invariant
            it.seq() == s@,
            v@ == strip_separators(s@.take(it.index())),
    {
        proof {
            reveal(Seq::filter);
            assert(s@.take(it.index() + 1).drop_last() =~= s@.take(it.index()));
        }
        if !is_separator_char(c) {
            v.push(c);
        }
    }
    assert(s@.take(s@.len() as int) =~= s@);
    v
}

/// The byte that the `k`-th pair of `digits` denotes, if both are
/// hexadecimal digits.
fn pair_at(digits: &Vec<char>, k: usize) -> (r: Option<u8>)
    requires
        k < 6,
        digits@.len() == 12,
    ensures
        r is Some <==> is_hex_digit(digits@[2 * k]) && is_hex_digit(digits@[2 * k + 1]),
        r matches Some(b) ==> b == pair_value(digits@, k as int),
{
    match (hex_digit(digits[2 * k]), hex_digit(digits[2 * k + 1])) {
        (Some(hi), Some(lo)) => Some(hi * 16 + lo),
        _ => None,
    }
}

/// Decodes a MAC address string into its six bytes.
pub fn decode_mac(s: &str) -> (r: Result<[u8; 6], MacFault>)
    ensures
        r is Ok <==> valid_mac(s@),
        r matches Ok(bytes) ==> bytes@ == mac_bytes(s@),
        r matches Err(fault) ==> (fault == MacFault::Length <==> strip_separators(s@).len() != 12),
{
    let digits = digits_of(s);
    if digits.len() != 12 {
        return Err(MacFault::Length);
    }
    let mut bytes: [u8; 6] = [0u8; 6];
    let mut k: usize = 0;
    while k < 6
        invariant
            k <= 6,
            digits@.len() == 12,
            digits@ == strip_separators(s@),
            forall|i: int| 0 <= i < 2 * k ==> is_hex_digit(#[trigger] digits@[i]),
            forall|j: int| 0 <= j < k ==> #[trigger] bytes@[j] == pair_value(digits@, j),
        decreases 6 - k,
    {
        match pair_at(&digits, k) {
            Some(b) => {
                bytes[k] = b;
            },
            None => {
                return Err(MacFault::Digit);
            },
        }
        k += 1;
    }
    assert(bytes@ =~= mac_bytes(s@));
    Ok(bytes)
}

/// A separator put anywhere into a string changes neither whether the
/// string is a MAC address nor the bytes that it denotes.
pub proof fn lemma_separator_anywhere(s: Seq<char>, at: int, separator: char)
    requires
        0 <= at <= s.len(),
        is_separator(separator),
    ensures
        strip_separators(s.insert(at, separator)) == strip_separators(s),
        valid_mac(s.insert(at, separator)) == valid_mac(s),
        mac_bytes(s.insert(at, separator)) == mac_bytes(s),
{
    let head = s.subrange(0, at);
    let tail = s.subrange(at, s.len() as int);
    let one = seq![separator];
    assert(s.insert(at, separator) =~= head + one + tail);
    assert(s =~= head + tail);
    Seq::filter_distributes_over_add(head + one, tail, keeps_digit());
    Seq::filter_distributes_over_add(head, one, keeps_digit());
    Seq::filter_distributes_over_add(head, tail, keeps_digit());
    assert(one.filter(keeps_digit()) =~= Seq::<char>::empty()) by {
        reveal_with_fuel(Seq::filter, 2);
        assert(one.drop_last() =~= Seq::<char>::empty());
    }
    assert(head.filter(keeps_digit()) + Seq::<char>::empty() =~= head.filter(keeps_digit()));
}

/// A string without separators is its own digits.
pub proof fn lemma_strip_without_separators(digits: Seq<char>)
    requires
        forall|i: int| 0 <= i < digits.len() ==> !is_separator(#[trigger] digits[i]),
    ensures
        strip_separators(digits) == digits,
    decreases digits.len(),
{
    reveal(Seq::filter);
    if digits.len() > 0 {
        lemma_strip_without_separators(digits.drop_last());
        assert(digits.drop_last().push(digits.last()) =~= digits);
    }
}

/// However twelve hexadecimal digits are separated, the string is a MAC
/// address and denotes the bytes that the digits alone denote.
pub proof fn lemma_notation_is_irrelevant(s: Seq<char>, digits: Seq<char>)
    requires
        digits.len() == 12,
        all_hex(digits),
        strip_separators(s) == digits,
    ensures
        valid_mac(s),
        valid_mac(digits),
        mac_bytes(s) == mac_bytes(digits),
{
    assert forall|i: int| 0 <= i < digits.len() implies !is_separator(#[trigger] digits[i]) by {
        assert(is_hex_digit(digits[i]));
    }
    lemma_strip_without_separators(digits);
    assert(mac_bytes(s) =~= mac_bytes(digits));
}

/// Whether two strings differ at most in the case of their ASCII letters.
pub open spec fn same_up_to_case(a: Seq<char>, b: Seq<char>) -> bool {
    &&& a.len() == b.len()
    &&& forall|i: int| 0 <= i < a.len() ==> upper_char(#[trigger] a[i]) == upper_char(b[i])
}

proof fn lemma_char_up_to_case(c: char, d: char)
    requires
        upper_char(c) == upper_char(d),
    ensures
        is_separator(c) == is_separator(d),
        hex_value(c) == hex_value(d),
{
}

proof fn lemma_strip_up_to_case(a: Seq<char>, b: Seq<char>)
    requires
        same_up_to_case(a, b),
    ensures
        same_up_to_case(strip_separators(a), strip_separators(b)),
    decreases a.len(),
{
    reveal(Seq::filter);
    if a.len() > 0 {
        assert(upper_char(a[a.len() - 1]) == upper_char(b[a.len() - 1]));
        lemma_char_up_to_case(a.last(), b.last());
        assert(same_up_to_case(a.drop_last(), b.drop_last())) by {
            assert forall|i: int| 0 <= i < a.len() - 1 implies upper_char(
                #[trigger] a.drop_last()[i],
            ) == upper_char(b.drop_last()[i]) by {
                assert(upper_char(a[i]) == upper_char(b[i]));
            }
        }
        lemma_strip_up_to_case(a.drop_last(), b.drop_last());
    }
}

/// The case of the letters changes neither whether a string is a MAC
/// address nor the bytes that it denotes.
pub proof fn lemma_case_is_irrelevant(a: Seq<char>, b: Seq<char>)
    requires
        same_up_to_case(a, b),
    ensures
        valid_mac(a) == valid_mac(b),
        valid_mac(a) ==> mac_bytes(a) == mac_bytes(b),
{
    lemma_strip_up_to_case(a, b);
    let x = strip_separators(a);
    let y = strip_separators(b);
    assert forall|i: int| 0 <= i < x.len() implies hex_value(#[trigger] x[i]) == hex_value(
        y[i],
    ) by {
        assert(upper_char(x[i]) == upper_char(y[i]));
        lemma_char_up_to_case(x[i], y[i]);
    }
    assert(all_hex(x) == all_hex(y)) by {
        if all_hex(x) {
            assert forall|i: int| 0 <= i < y.len() implies is_hex_digit(#[trigger] y[i]) by {
                assert(is_hex_digit(x[i]));
            }
        }
        if all_hex(y) {
            assert forall|i: int| 0 <= i < x.len() implies is_hex_digit(#[trigger] x[i]) by {
                assert(is_hex_digit(y[i]));
            }
        }
    }
    if valid_mac(a) {
        assert forall|k: int| 0 <= k < 6 implies pair_value(x, k) == pair_value(y, k) by {
            assert(hex_value(x[2 * k]) == hex_value(y[2 * k]));
            assert(hex_value(x[2 * k + 1]) == hex_value(y[2 * k + 1]));
        }
        assert(mac_bytes(a) =~= mac_bytes(b));
    }
}

} // verus!
