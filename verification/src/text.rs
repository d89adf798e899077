//! Small helpers that move between strings and sequences of characters.

use vstd::prelude::*;
use vstd::string::StringSliceAdditionalSpecFns;

verus! {

/// The characters of `s`, in order.
pub fn chars_of(s: &str) -> (v: Vec<char>)
    ensures
        v@ == s@,
{
    let mut v: Vec<char> = Vec::new();
    for c in it: s.chars()
        invariant
            it.seq() == s@,
            v@ == s@.take(it.index()),
    {
        v.push(c);
        assert(s@.take(it.index() + 1) =~= s@.take(it.index()).push(c));
    }
    assert(s@.take(s@.len() as int) =~= s@);
    v
}

/// `String::push`: appends one character to a string.
#[verifier::external_body]
pub(crate) fn push_char(s: &mut String, c: char)
    ensures
        final(s)@ == old(s)@.push(c),
{
    s.push(c)
}

/// Whether two strings hold the same characters.
pub fn same_text(a: &str, b: &str) -> (r: bool)
    ensures
        r == (a@ == b@),
{
    let x = a.as_bytes();
    let y = b.as_bytes();
    proof {
        vstd::utf8::encode_utf8_decode_utf8(a@);
        vstd::utf8::encode_utf8_decode_utf8(b@);
    }
    if x.len() != y.len() {
        return false;
    }
    let mut i: usize = 0;
    while i < x.len()
        invariant
            i <= x.len(),
            x.len() == y.len(),
            x@ == a.spec_bytes(),
            y@ == b.spec_bytes(),
            forall|j: int| 0 <= j < i ==> x@[j] == y@[j],
        decreases x.len() - i,
    {
        if x[i] != y[i] {
            return false;
        }
        i += 1;
    }
    assert(x@ =~= y@);
    true
}

/// The upper-case form of an ASCII letter; any other character is itself.
pub open spec fn upper_char(c: char) -> char {
    if 'a' <= c && c <= 'z' {
        ((c as u32 - 32) as u8) as char
    } else {
        c
    }
}

/// `s` with each ASCII letter in upper case.
pub open spec fn upper(s: Seq<char>) -> Seq<char> {
    Seq::new(s.len(), |i: int| upper_char(s[i]))
}

/// `s` with each ASCII letter in upper case.
pub fn to_upper(s: &str) -> (r: String)
    ensures
        r@ == upper(s@),
{
    let mut r = String::new();
    for c in it: s.chars()
        invariant
            it.seq() == s@,
            r@ == upper(s@).take(it.index()),
    {
        let u: char = if 'a' <= c && c <= 'z' {
            ((c as u32 - 32) as u8) as char
        } else {
            c
        };
        push_char(&mut r, u);
        assert(r@ =~= upper(s@).take(it.index() + 1));
    }
    assert(upper(s@).take(s@.len() as int) =~= upper(s@));
    r
}

/// The characters that count as white space: those with the Unicode
/// property White_Space.
pub open spec fn is_whitespace(c: char) -> bool {
    let u = c as u32;
    ||| 0x09 <= u <= 0x0D
    ||| u == 0x20
    ||| u == 0x85
    ||| u == 0xA0
    ||| u == 0x1680
    ||| 0x2000 <= u <= 0x200A
    ||| u == 0x2028
    ||| u == 0x2029
    ||| u == 0x202F
    ||| u == 0x205F
    ||| u == 0x3000
}

/// Whether `s` holds nothing but white space.
pub open spec fn is_blank(s: Seq<char>) -> bool {
    forall|i: int| 0 <= i < s.len() ==> is_whitespace(#[trigger] s[i])
}

pub fn is_whitespace_char(c: char) -> (r: bool)
    ensures
        r == is_whitespace(c),
{
    let u: u32 = c as u32;
    (0x09 <= u && u <= 0x0D) || u == 0x20 || u == 0x85 || u == 0xA0 || u == 0x1680 || (0x2000
        <= u && u <= 0x200A) || u == 0x2028 || u == 0x2029 || u == 0x202F || u == 0x205F || u
        == 0x3000
}

/// Whether `s` holds nothing but white space.
pub fn is_blank_text(s: &str) -> (r: bool)
    ensures
        r == is_blank(s@),
{
    let mut blank = true;
    for c in it: s.chars()
        invariant
            it.seq() == s@,
            blank == is_blank(s@.take(it.index())),
    {
        proof {
            let before = s@.take(it.index());
            let after = s@.take(it.index() + 1);
            assert(after[it.index()] == c);
            assert(forall|i: int| 0 <= i < before.len() ==> before[i] == after[i]);
        }
        if !is_whitespace_char(c) {
            blank = false;
        }
    }
    assert(s@.take(s@.len() as int) =~= s@);
    blank
}

/// Whether `part` stands in `text` from index `k` on.
pub open spec fn occurs_at(text: Seq<char>, part: Seq<char>, k: int) -> bool {
    0 <= k && k + part.len() <= text.len() && text.subrange(k, k + part.len()) == part
}

/// Whether `part` stands somewhere in `text`.
pub open spec fn occurs_in(text: Seq<char>, part: Seq<char>) -> bool {
    exists|k: int| occurs_at(text, part, k)
}

/// Whether `part` stands in `text` from index `k` on.
fn stands_at(text: &Vec<char>, part: &Vec<char>, k: usize) -> (r: bool)
    requires
        k + part.len() <= text.len(),
    ensures
        r == occurs_at(text@, part@, k as int),
{
    let ghost window = text@.subrange(k as int, k + part@.len());
    let mut i: usize = 0;
    while i < part.len()
        invariant
            i <= part.len(),
            k + part.len() <= text.len(),
            window == text@.subrange(k as int, k + part@.len()),
            forall|j: int| 0 <= j < i ==> window[j] == part@[j],
        decreases part.len() - i,
    {
        if text[k + i] != part[i] {
            assert(window[i as int] != part@[i as int]);
            return false;
        }
        i += 1;
    }
    assert(window =~= part@);
    true
}

/// Whether `part` stands somewhere in `text`.
pub fn occurs(text: &str, part: &str) -> (r: bool)
    ensures
        r == occurs_in(text@, part@),
{
    let hay = chars_of(text);
    let needle = chars_of(part);
    if needle.len() == 0 {
        assert(hay@.subrange(0, 0) =~= needle@);
        assert(occurs_at(hay@, needle@, 0));
        return true;
    }
    if needle.len() > hay.len() {
        return false;
    }
    let mut k: usize = 0;
    while needle.len() <= hay.len() - k
        invariant
            k <= hay.len(),
            0 < needle.len() <= hay.len(),
            hay@ == text@,
            needle@ == part@,
            forall|j: int| 0 <= j < k ==> !occurs_at(hay@, needle@, j),
        decreases hay.len() - k,
    {
        if stands_at(&hay, &needle, k) {
            return true;
        }
        k += 1;
    }
    false
}

} // verus!
