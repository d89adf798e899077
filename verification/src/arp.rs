//! Looking a MAC address up in the text of the system's ARP table.

use crate::error::ArpError;
use crate::mac::{hex_digit, is_hex_digit};
use crate::text::{chars_of, occurs, occurs_in, to_upper, upper};
use vstd::prelude::*;

verus! {

/// `regex::Error`, which says why a pattern does not compile. Nothing is
/// known of a value.
#[verifier::external_type_specification]
#[verifier::external_body]
pub struct ExRegexError(regex::Error);

pub open spec fn is_digit(c: char) -> bool {
    '0' <= c && c <= '9'
}

pub open spec fn digit_value(c: char) -> int {
    c as u32 - '0' as u32
}

/// The number that up to three decimal digits denote.
pub open spec fn decimal_value(digits: Seq<char>) -> int
    recommends
        1 <= digits.len() <= 3,
{
    if digits.len() == 1 {
        digit_value(digits[0])
    } else if digits.len() == 2 {
        digit_value(digits[0]) * 10 + digit_value(digits[1])
    } else {
        digit_value(digits[0]) * 100 + digit_value(digits[1]) * 10 + digit_value(digits[2])
    }
}

/// One part of a dotted quad: one to three decimal digits, without a
/// leading zero before another digit, that denote at most 255.
pub open spec fn is_octet(part: Seq<char>) -> bool {
    &&& 1 <= part.len() <= 3
    &&& forall|t: int| 0 <= t < part.len() ==> is_digit(#[trigger] part[t])
    &&& (part.len() > 1 ==> part[0] != '0')
    &&& decimal_value(part) <= 255
}

/// Whether `s` is a dotted quad with its dots at the indices `i`, `j`, `k`.
pub open spec fn is_quad_at(s: Seq<char>, i: int, j: int, k: int) -> bool {
    &&& 0 <= i < j < k < s.len()
    &&& s[i] == '.'
    &&& s[j] == '.'
    &&& s[k] == '.'
    &&& is_octet(s.subrange(0, i))
    &&& is_octet(s.subrange(i + 1, j))
    &&& is_octet(s.subrange(j + 1, k))
    &&& is_octet(s.subrange(k + 1, s.len() as int))
}

/// An IPv4 address in text: four octets with a dot between each two.
pub open spec fn is_ipv4(s: Seq<char>) -> bool {
    exists|i: int, j: int, k: int| is_quad_at(s, i, j, k)
}

/// An octet holds no dot.
proof fn lemma_octet_has_no_dot(s: Seq<char>, from: int, to: int, p: int)
    requires
        0 <= from <= to <= s.len(),
        is_octet(s.subrange(from, to)),
        from <= p < to,
    ensures
        s[p] != '.',
{
    assert(s.subrange(from, to)[p - from] == s[p]);
}

/// The dots of a dotted quad are its three separators and no others.
proof fn lemma_quad_dots(s: Seq<char>, i: int, j: int, k: int, p: int)
    requires
        is_quad_at(s, i, j, k),
        0 <= p < s.len(),
        s[p] == '.',
    ensures
        p == i || p == j || p == k,
{
    if p < i {
        lemma_octet_has_no_dot(s, 0, i, p);
    } else if i < p < j {
        lemma_octet_has_no_dot(s, i + 1, j, p);
    } else if j < p < k {
        lemma_octet_has_no_dot(s, j + 1, k, p);
    } else if k < p {
        lemma_octet_has_no_dot(s, k + 1, s.len() as int, p);
    }
}

/// The index of the first dot at or after `from`, or the length.
fn next_dot(text: &Vec<char>, from: usize) -> (at: usize)
    requires
        from <= text@.len(),
    ensures
        from <= at <= text@.len(),
        at < text@.len() ==> text@[at as int] == '.',
        forall|p: int| from <= p < at ==> text@[p] != '.',
{
    let mut at: usize = from;
    while at < text.len() && text[at] != '.'
        invariant
            from <= at <= text@.len(),
            forall|p: int| from <= p < at ==> text@[p] != '.',
        decreases text@.len() - at,
    {
        at += 1;
    }
    at
}

/// Whether the characters from `from` up to `to` are an octet.
fn octet_between(text: &Vec<char>, from: usize, to: usize) -> (r: bool)
    requires
        from <= to <= text@.len(),
    ensures
        r == is_octet(text@.subrange(from as int, to as int)),
{
    let ghost part = text@.subrange(from as int, to as int);
    let len: usize = to - from;
    if len < 1 || len > 3 {
        return false;
    }
    let mut value: u32 = 0;
    let mut t: usize = 0;
    while t < len
        invariant
            t <= len,
            1 <= len <= 3,
            len == to - from,
            to <= text@.len(),
            part == text@.subrange(from as int, to as int),
            forall|u: int| 0 <= u < t ==> is_digit(#[trigger] part[u]),
            t == 0 ==> value == 0,
            t == 1 ==> value == digit_value(part[0]),
            t == 2 ==> value == digit_value(part[0]) * 10 + digit_value(part[1]),
            t == 3 ==> value == digit_value(part[0]) * 100 + digit_value(part[1]) * 10
                + digit_value(part[2]),
        decreases len - t,
    {
        let c = text[from + t];
        assert(part[t as int] == c);
        if !('0' <= c && c <= '9') {
            return false;
        }
        value = value * 10 + (c as u32 - '0' as u32);
        t += 1;
    }
    if len > 1 && text[from] == '0' {
        assert(part[0] == '0');
        return false;
    }
    assert(part[0] == text@[from as int]);
    value <= 255
}

/// Whether `ip` is an IPv4 address in dotted-quad notation.
pub fn is_ipv4_address(ip: &str) -> (r: bool)
    ensures
        r == is_ipv4(ip@),
{
    let text = chars_of(ip);
    let n = text.len();
    proof {
        if is_ipv4(ip@) {
            let (i, j, k) = choose|i: int, j: int, k: int| is_quad_at(ip@, i, j, k);
            assert forall|p: int| 0 <= p < ip@.len() && ip@[p] == '.' implies p == i || p == j
                || p == k by {
                lemma_quad_dots(ip@, i, j, k, p);
            }
        }
    }
    let i = next_dot(&text, 0);
    if i >= n {
        return false;
    }
    let j = next_dot(&text, i + 1);
    if j >= n {
        return false;
    }
    let k = next_dot(&text, j + 1);
    if k >= n {
        return false;
    }
    let end = next_dot(&text, k + 1);
    if end < n {
        return false;
    }
    let r = octet_between(&text, 0, i) && octet_between(&text, i + 1, j) && octet_between(
        &text,
        j + 1,
        k,
    ) && octet_between(&text, k + 1, n);
    proof {
        if r {
            assert(is_quad_at(ip@, i as int, j as int, k as int));
        }
    }
    r
}

/// Checks that `ip` is an IPv4 address in dotted-quad notation.
pub fn validate_ip(ip: &str) -> (r: Result<(), ArpError>)
    ensures
        r is Ok <==> is_ipv4(ip@),
        r matches Err(e) ==> (e matches ArpError::InvalidIp(given) && given@ == ip@),
{
    if is_ipv4_address(ip) {
        Ok(())
    } else {
        Err(ArpError::InvalidIp(String::from_str(ip)))
    }
}

/// The characters that have a meaning of their own in a regular
/// expression.
pub open spec fn is_meta_character(c: char) -> bool {
    ||| c == '\\'
    ||| c == '.'
    ||| c == '+'
    ||| c == '*'
    ||| c == '?'
    ||| c == '('
    ||| c == ')'
    ||| c == '|'
    ||| c == '['
    ||| c == ']'
    ||| c == '{'
    ||| c == '}'
    ||| c == '^'
    ||| c == '$'
    ||| c == '#'
    ||| c == '&'
    ||| c == '-'
    ||| c == '~'
}

/// `s` with a backslash before each character that has a meaning of its
/// own in a regular expression.
pub open spec fn escaped(s: Seq<char>) -> Seq<char>
    decreases s.len(),
{
    if s.len() == 0 {
        Seq::empty()
    } else if is_meta_character(s.last()) {
        escaped(s.drop_last()).push('\\').push(s.last())
    } else {
        escaped(s.drop_last()).push(s.last())
    }
}

/// Whether `pattern` is a regular expression that the engine compiles.
pub uninterp spec fn pattern_compiles(pattern: Seq<char>) -> bool;

/// The text that the first group of `pattern` captured in the leftmost
/// match of `pattern` in `haystack`, where there is a match and the group
/// took part in it.
pub uninterp spec fn first_group_match(pattern: Seq<char>, haystack: Seq<char>) -> Option<
    Seq<char>,
>;

/// `regex::escape`: the text with a backslash put before each of the
/// eighteen characters that the crate counts as meta characters, so that
/// the result matches the text literally.
#[verifier::external_body]
fn escape_pattern(text: &str) -> (r: String)
    ensures
        r@ == escaped(text@),
{
    regex::escape(text)
}

/// Compiles `pattern` with `regex::Regex::new` and searches `haystack` with
/// `Regex::captures`. A pattern that does not compile gives the crate's
/// error; whether one compiles depends on the pattern alone. Otherwise
/// the result is the text of capture group 1 in the leftmost match, as
/// `Captures::get` and `Match::as_str` give it, or nothing where there is
/// no match. Only the names of these two results are claimed.
#[verifier::external_body]
fn search_first_group(pattern: &str, haystack: &str) -> (r: Result<Option<String>, regex::Error>)
    ensures
        r is Ok <==> pattern_compiles(pattern@),
        r matches Ok(found) ==> (match found {
            Some(text) => first_group_match(pattern@, haystack@) == Some(text@),
            None => first_group_match(pattern@, haystack@) is None,
        }),
{
    match regex::Regex::new(pattern) {
        Ok(re) => Ok(
            match re.captures(haystack) {
                Some(caps) => caps.get(1).map(|m| m.as_str().to_string()),
                None => None,
            },
        ),
        Err(e) => Err(e),
    }
}

/// The pattern of the ARP table's line for `ip`: a question mark, the
/// address in round brackets, the word "at", and six pairs of hexadecimal
/// digits with a colon between each two, which are captured.
pub open spec fn arp_line_pattern(ip: Seq<char>) -> Seq<char> {
    "\\? \\("@ + escaped(ip) + "\\) at ((?:[0-9A-Fa-f]{2}:){5}[0-9A-Fa-f]{2})"@
}

/// A MAC address as the ARP table prints it: six pairs of hexadecimal
/// digits, in either case, with a colon between each two.
pub open spec fn is_mac_token(s: Seq<char>) -> bool {
    &&& s.len() == 17
    &&& forall|i: int|
        0 <= i < 17 ==> if i % 3 == 2 {
            s[i] == ':'
        } else {
            is_hex_digit(#[trigger] s[i])
        }
}

/// A hexadecimal digit that is no lower-case letter.
pub open spec fn is_upper_hex(c: char) -> bool {
    ('0' <= c && c <= '9') || ('A' <= c && c <= 'F')
}

/// A MAC address as a lookup answers it: six pairs of hexadecimal digits,
/// the letters in upper case, with a colon between each two.
pub open spec fn is_upper_mac(s: Seq<char>) -> bool {
    &&& s.len() == 17
    &&& forall|i: int|
        0 <= i < 17 ==> if i % 3 == 2 {
            s[i] == ':'
        } else {
            is_upper_hex(#[trigger] s[i])
        }
}

/// A MAC token in upper case is a MAC address in upper case.
pub proof fn lemma_upper_mac(s: Seq<char>)
    requires
        is_mac_token(s),
    ensures
        is_upper_mac(upper(s)),
{
    assert forall|i: int| 0 <= i < 17 implies if i % 3 == 2 {
        upper(s)[i] == ':'
    } else {
        is_upper_hex(#[trigger] upper(s)[i])
    } by {
        if i % 3 != 2 {
            assert(is_hex_digit(s[i]));
        }
    }
}

/// Whether `token` is a MAC address as the ARP table prints it.
pub fn is_mac_token_text(token: &str) -> (r: bool)
    ensures
        r == is_mac_token(token@),
{
    let text = chars_of(token);
    if text.len() != 17 {
        return false;
    }
    let mut i: usize = 0;
    while i < 17
        invariant
            i <= 17,
            text@.len() == 17,
            text@ == token@,
            forall|j: int|
                0 <= j < i ==> if j % 3 == 2 {
                    text@[j] == ':'
                } else {
                    is_hex_digit(#[trigger] text@[j])
                },
        decreases 17 - i,
    {
        let c = text[i];
        if i % 3 == 2 {
            if c != ':' {
                return false;
            }
        } else if hex_digit(c).is_none() {
            return false;
        }
        i += 1;
    }
    true
}

/// The start of the ARP table's line for `ip` with the MAC address
/// `token`: a question mark, the address in round brackets, the word "at",
/// and the token.
pub open spec fn arp_line_text(ip: Seq<char>, token: Seq<char>) -> Seq<char> {
    "? ("@ + ip + ") at "@ + token
}

/// Whether the search of the table's text may answer with `token`: it is
/// a MAC address, and the text holds the line of `ip` with it.
pub open spec fn is_entry(ip: Seq<char>, output: Seq<char>, token: Seq<char>) -> bool {
    is_mac_token(token) && occurs_in(output, arp_line_text(ip, token))
}

/// Turns what the search of the ARP table found into the answer: the MAC
/// address in upper case, where a MAC address was found, or the error
/// that the table has no entry for `ip`.
pub fn mac_from_capture(ip: &str, found: Option<String>) -> (r: Result<String, ArpError>)
    ensures
        r is Ok <==> found is Some && is_mac_token(found->0@),
        r matches Ok(mac) ==> mac@ == upper(found->0@) && mac@.len() == 17 && is_upper_mac(mac@),
        r matches Err(e) ==> (e matches ArpError::NotFound(who) && who@ == ip@),
{
    match found {
        Some(token) => {
            if is_mac_token_text(token.as_str()) {
                proof {
                    lemma_upper_mac(token@);
                }
                Ok(to_upper(token.as_str()))
            } else {
                Err(ArpError::NotFound(String::from_str(ip)))
            }
        },
        None => Err(ArpError::NotFound(String::from_str(ip))),
    }
}

/// The answer of a lookup, given the text of the ARP table and what the
/// search of it found. What was found is not taken on the word of the
/// search: it counts only where the text holds the line of `ip` with it,
/// and where it is a MAC address.
pub fn entry_from_capture(ip: &str, output: &str, found: Option<String>) -> (r: Result<
    String,
    ArpError,
>)
    ensures
        r is Ok <==> found is Some && is_entry(ip@, output@, found->0@),
        r matches Ok(mac) ==> mac@ == upper(found->0@) && mac@.len() == 17 && is_upper_mac(mac@),
        r matches Err(e) ==> (e matches ArpError::NotFound(who) && who@ == ip@),
{
    match found {
        Some(token) => {
            let line = String::from_str("? (").concat(ip).concat(") at ").concat(token.as_str());
            if occurs(output, line.as_str()) {
                mac_from_capture(ip, Some(token))
            } else {
                Err(ArpError::NotFound(String::from_str(ip)))
            }
        },
        None => mac_from_capture(ip, None),
    }
}

/// What a search of the ARP table's text for the line of `ip` finds: the
/// captured token, or nothing where no line matches or the pattern made
/// from `ip` is more than the engine compiles.
pub open spec fn arp_entry(ip: Seq<char>, output: Seq<char>) -> Option<Seq<char>> {
    if pattern_compiles(arp_line_pattern(ip)) {
        first_group_match(arp_line_pattern(ip), output)
    } else {
        None
    }
}

/// Searches the text of the ARP table for the line of `ip` and returns the
/// MAC address of that line, in upper case. The answer is never taken on
/// the word of the search alone: the text holds the line that it stands
/// for. Without such a line the answer is `NotFound`.
pub fn get_mac_from_arp(ip: &str, output: &str) -> (r: Result<String, ArpError>)
    ensures
        r is Ok <==> arp_entry(ip@, output@) is Some && is_entry(
            ip@,
            output@,
            arp_entry(ip@, output@)->0,
        ),
        r matches Ok(mac) ==> mac@ == upper(arp_entry(ip@, output@)->0) && mac@.len() == 17
            && is_upper_mac(mac@),
        r matches Ok(mac) ==> exists|token: Seq<char>| #[trigger]
            is_entry(ip@, output@, token) && mac@ == upper(token),
        r matches Err(e) ==> (e matches ArpError::NotFound(who) && who@ == ip@),
{
    let pattern = String::from_str("\\? \\(").concat(escape_pattern(ip).as_str()).concat(
        "\\) at ((?:[0-9A-Fa-f]{2}:){5}[0-9A-Fa-f]{2})",
    );
    match search_first_group(pattern.as_str(), output) {
        Ok(found) => {
            let r = entry_from_capture(ip, output, found);
            proof {
                if r is Ok {
                    assert(is_entry(ip@, output@, found->0@));
                }
            }
            r
        },
        Err(_) => Err(ArpError::NotFound(String::from_str(ip))),
    }
}

/// What has happened so far in a lookup.
#[derive(Debug, PartialEq)]
pub enum ArpEvent {
    /// Nothing yet.
    Start,
    /// The address was pinged; whether it answered does not matter.
    Pinged,
    /// The ARP table was read, and this is its text.
    Table(String),
    /// The ARP table could not be read, for this reason.
    TableFailed(String),
}

/// What a lookup does next.
#[derive(Debug, PartialEq)]
pub enum ArpStep {
    /// Ping the address once, to have the system fill its ARP table.
    Ping,
    /// Read the system's ARP table.
    ReadTable,
    /// The lookup is over, with this answer.
    Done(Result<String, ArpError>),
}

/// One step of the lookup of the MAC address of `ip`: given what has
/// happened, what to do next. A malformed address ends the lookup before
/// anything is run; a ping is followed by reading the table whatever came
/// of it; a table that could not be read ends the lookup with `Query`; the
/// text of the table is searched as `get_mac_from_arp` does.
pub fn lookup_mac(ip: &str, event: ArpEvent) -> (step: ArpStep)
    ensures
        event is Start && is_ipv4(ip@) ==> step is Ping,
        event is Start && !is_ipv4(ip@) ==> (step matches ArpStep::Done(
            Err(ArpError::InvalidIp(given)),
        ) && given@ == ip@),
        event is Pinged ==> step is ReadTable,
        event matches ArpEvent::TableFailed(reason) ==> (step matches ArpStep::Done(
            Err(ArpError::Query(detail)),
        ) && detail == reason),
        event matches ArpEvent::Table(output) ==> (step matches ArpStep::Done(answer) && {
            &&& answer is Ok <==> arp_entry(ip@, output@) is Some && is_entry(
                ip@,
                output@,
                arp_entry(ip@, output@)->0,
            )
            &&& answer matches Ok(mac) ==> mac@ == upper(arp_entry(ip@, output@)->0)
                && is_upper_mac(mac@)
            &&& answer matches Ok(mac) ==> exists|token: Seq<char>| #[trigger]
                is_entry(ip@, output@, token) && mac@ == upper(token)
            &&& answer matches Err(e) ==> (e matches ArpError::NotFound(who) && who@ == ip@)
        }),
{
    match event {
        ArpEvent::Start => match validate_ip(ip) {
            Ok(()) => ArpStep::Ping,
            Err(e) => ArpStep::Done(Err(e)),
        },
        ArpEvent::Pinged => ArpStep::ReadTable,
        ArpEvent::TableFailed(reason) => ArpStep::Done(Err(ArpError::Query(reason))),
        ArpEvent::Table(output) => ArpStep::Done(get_mac_from_arp(ip, output.as_str())),
    }
}

} // verus!
