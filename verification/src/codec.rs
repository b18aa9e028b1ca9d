//! The text forms of a UUID: reading the four accepted shapes, and writing
//! each of them in lowercase.

use vstd::prelude::*;
use vstd::string::*;
use crate::error::Error;
use crate::value::{
    be_byte, be_bytes, from_be_bytes, join16, lemma_join_of_split, value_round_trip, Uuid,
};

verus! {

/// The value of a hex digit of either case; `None` for any other character.
pub open spec fn hex_value(c: char) -> Option<u8> {
    let x = c as u32;
    if 48 <= x <= 57 {
        Some((x - 48) as u8)
    } else if 97 <= x <= 102 {
        Some((x - 87) as u8)
    } else if 65 <= x <= 70 {
        Some((x - 55) as u8)
    } else {
        None
    }
}

/// The lowercase hex digit of a value below 16.
pub open spec fn hex_digit(n: u8) -> char {
    if n < 10 {
        ((n + 48) as u8) as char
    } else {
        ((n + 87) as u8) as char
    }
}

/// The lowercase form of an ASCII letter; any other character as it is.
pub open spec fn ascii_lower(c: char) -> char {
    if 65 <= c as u32 <= 90 {
        ((c as u32 + 32) as u8) as char
    } else {
        c
    }
}

/// A text with every ASCII letter in lowercase.
pub open spec fn lower_text(s: Seq<char>) -> Seq<char> {
    Seq::new(s.len(), |i: int| ascii_lower(s[i]))
}

/// The nine characters `urn:uuid:`.
pub open spec fn urn_prefix() -> Seq<char> {
    seq!['u', 'r', 'n', ':', 'u', 'u', 'i', 'd', ':']
}

/// Whether the text starts with `urn:uuid:`, its letters in either case.
pub open spec fn is_urn(s: Seq<char>) -> bool {
    s.len() >= 9 && (s[0] == 'u' || s[0] == 'U') && (s[1] == 'r' || s[1] == 'R') && (s[2] == 'n'
        || s[2] == 'N') && s[3] == ':' && (s[4] == 'u' || s[4] == 'U') && (s[5] == 'u' || s[5]
        == 'U') && (s[6] == 'i' || s[6] == 'I') && (s[7] == 'd' || s[7] == 'D') && s[8] == ':'
}

/// Whether the text stands between `{` and `}`.
pub open spec fn is_braced(s: Seq<char>) -> bool {
    !is_urn(s) && s.len() >= 2 && s[0] == '{' && s[s.len() - 1] == '}'
}

/// Where the digits and hyphens begin: behind the URN prefix or the opening
/// brace, if there is one.
pub open spec fn body_start(s: Seq<char>) -> int {
    if is_urn(s) {
        9
    } else if is_braced(s) {
        1
    } else {
        0
    }
}

/// How many characters the prefix and the braces take.
pub open spec fn wrapper_len(s: Seq<char>) -> int {
    if is_urn(s) {
        9
    } else if is_braced(s) {
        2
    } else {
        0
    }
}

/// The text without its URN prefix or its braces.
pub open spec fn body(s: Seq<char>) -> Seq<char> {
    s.subrange(body_start(s), body_start(s) + (s.len() - wrapper_len(s)))
}

/// The four places of the hyphens in the 36-character form.
pub open spec fn is_hyphen_index(i: int) -> bool {
    i == 8 || i == 13 || i == 18 || i == 23
}

/// In a 36-character body: a hyphen is missing from its place, or one
/// stands where a digit belongs.
pub open spec fn group_fault(b: Seq<char>, i: int) -> bool {
    b.len() == 36 && (b[i] == '-') != is_hyphen_index(i)
}

/// A character that is neither a hex digit nor a hyphen of the
/// 36-character form.
pub open spec fn character_fault(b: Seq<char>, i: int) -> bool {
    !(b.len() == 36 && (b[i] == '-' || is_hyphen_index(i))) && hex_value(b[i]) is None
}

/// Whether every character of the body before index `p` is in order.
pub open spec fn clean_before(b: Seq<char>, p: int) -> bool {
    forall|j: int| 0 <= j < p ==> !group_fault(b, j) && !character_fault(b, j)
}

/// Whether the text is a UUID in one of the accepted shapes: 32 hex digits,
/// or 36 characters with hyphens at indices 8, 13, 18 and 23 and hex digits
/// elsewhere; either of them plain or in braces, or behind `urn:uuid:`.
pub open spec fn well_formed(s: Seq<char>) -> bool {
    (body(s).len() == 32 || body(s).len() == 36) && clean_before(body(s), body(s).len() as int)
}

/// Whether `e` is the error that the text is refused with. A body that
/// has neither 32 nor 36 characters has the wrong length: expected is the
/// length of the 36-character form in the text's shape, actual the number of
/// characters of the text. Otherwise the first character that is out of
/// order decides, and the error carries its index in the text.
pub open spec fn rejection(s: Seq<char>, e: Error) -> bool {
    let b = body(s);
    if b.len() != 32 && b.len() != 36 {
        e == (Error::InvalidLength {
            expected: (36 + wrapper_len(s)) as usize,
            actual: s.len() as usize,
        })
    } else {
        match e {
            Error::InvalidCharacter { position } => {
                let p = position - body_start(s);
                0 <= p < b.len() && clean_before(b, p) && character_fault(b, p)
            },
            Error::InvalidGroupPosition { position } => {
                let p = position - body_start(s);
                0 <= p < b.len() && clean_before(b, p) && group_fault(b, p)
            },
            _ => false,
        }
    }
}

/// The index in a body of `len` characters of its hex digit number `k`.
pub open spec fn digit_index(len: nat, k: int) -> int {
    if len != 36 {
        k
    } else if k < 8 {
        k
    } else if k < 12 {
        k + 1
    } else if k < 16 {
        k + 2
    } else if k < 20 {
        k + 3
    } else {
        k + 4
    }
}

/// Byte `i` that a body spells: two hex digits, the first one the high half.
pub open spec fn text_byte(b: Seq<char>, i: int) -> u8 {
    let hi = hex_value(b[digit_index(b.len(), 2 * i)]).unwrap();
    let lo = hex_value(b[digit_index(b.len(), 2 * i + 1)]).unwrap();
    hi << 4 | lo
}

/// The 128-bit value that a well-formed text spells.
pub open spec fn text_value(s: Seq<char>) -> u128 {
    from_be_bytes(Seq::new(16, |i: int| text_byte(body(s), i)))
}

/// Hex digit `k` of a value, 0 being the most significant of the 32.
pub open spec fn nibble(v: u128, k: int) -> u8 {
    let b = be_byte(v, k / 2);
    if k % 2 == 0 {
        b >> 4
    } else {
        b & 0xf
    }
}

/// The number of the hex digit at index `i` of the 36-character form.
pub open spec fn digit_number(i: int) -> int {
    if i < 8 {
        i
    } else if i < 13 {
        i - 1
    } else if i < 18 {
        i - 2
    } else if i < 23 {
        i - 3
    } else {
        i - 4
    }
}

/// Character `i` of the 36-character form of a value.
pub open spec fn hyphenated_char(v: u128, i: int) -> char {
    if is_hyphen_index(i) {
        '-'
    } else {
        hex_digit(nibble(v, digit_number(i)))
    }
}

/// The canonical form: 32 lowercase hex digits in groups of 8, 4, 4, 4 and
/// 12, with hyphens between the groups.
pub open spec fn hyphenated_text(v: u128) -> Seq<char> {
    Seq::new(36, |i: int| hyphenated_char(v, i))
}

/// The simple form: 32 lowercase hex digits.
pub open spec fn simple_text(v: u128) -> Seq<char> {
    Seq::new(32, |k: int| hex_digit(nibble(v, k)))
}

/// The braced form: the canonical form between `{` and `}`.
pub open spec fn braced_text(v: u128) -> Seq<char> {
    seq!['{'] + hyphenated_text(v) + seq!['}']
}

/// The URN form: the canonical form behind `urn:uuid:`.
pub open spec fn urn_text(v: u128) -> Seq<char> {
    urn_prefix() + hyphenated_text(v)
}

/// Whether a text is in the canonical form, its digits in either case.
pub open spec fn canonical(s: Seq<char>) -> bool {
    s.len() == 36 && forall|i: int|
        0 <= i < 36 ==> if is_hyphen_index(i) {
            s[i] == '-'
        } else {
            hex_value(#[trigger] s[i]) is Some
        }
}

/// The value of a hex digit, if the character is one.
pub fn hex_val(c: char) -> (r: Option<u8>)
    ensures
        r == hex_value(c),
        r is Some ==> r.unwrap() < 16,
{
    let x: u32 = c as u32;
    if 48 <= x && x <= 57 {
        Some((x - 48) as u8)
    } else if 97 <= x && x <= 102 {
        Some((x - 87) as u8)
    } else if 65 <= x && x <= 70 {
        Some((x - 55) as u8)
    } else {
        None
    }
}

fn has_urn_prefix(s: &str, n: usize) -> (r: bool)
    requires
        n == s@.len(),
    ensures
        r == is_urn(s@),
{
    if n < 9 {
        return false;
    }
    let c0: char = s.get_char(0);
    let c1: char = s.get_char(1);
    let c2: char = s.get_char(2);
    let c4: char = s.get_char(4);
    let c5: char = s.get_char(5);
    let c6: char = s.get_char(6);
    let c7: char = s.get_char(7);
    (c0 == 'u' || c0 == 'U') && (c1 == 'r' || c1 == 'R') && (c2 == 'n' || c2 == 'N')
        && s.get_char(3) == ':' && (c4 == 'u' || c4 == 'U') && (c5 == 'u' || c5 == 'U') && (c6
        == 'i' || c6 == 'I') && (c7 == 'd' || c7 == 'D') && s.get_char(8) == ':'
}

fn digit_place(len: usize, k: usize) -> (r: usize)
    requires
        k < 32,
        len == 32 || len == 36,
    ensures
        r == digit_index(len as nat, k as int),
        r < len,
{
    if len != 36 {
        k
    } else if k < 8 {
        k
    } else if k < 12 {
        k + 1
    } else if k < 16 {
        k + 2
    } else if k < 20 {
        k + 3
    } else {
        k + 4
    }
}

/// Reads a UUID from text in the canonical form, the simple form, either of
/// them in braces, or the URN form. Digits and the URN prefix may be in
/// either case. White space is not skipped, and neither version nor variant
/// is checked.
///
/// A text whose body, without prefix or braces, has neither 32 nor 36
/// characters is refused with `InvalidLength`. Otherwise the first character
/// that is out of order decides: `InvalidGroupPosition` for a hyphen that is
/// missing from index 8, 13, 18 or 23 of a 36-character body or that stands
/// anywhere else in it, `InvalidCharacter` for any other character that is
/// no hex digit. Both carry the character's index in the whole text.
pub fn parse(s: &str) -> (r: Result<Uuid, Error>)
    ensures
        r is Ok <==> well_formed(s@),
        r is Ok ==> r.unwrap()@ == text_value(s@),
        r is Err ==> rejection(s@, r.unwrap_err()),
{
    let n: usize = s.unicode_len();
    let urn: bool = has_urn_prefix(s, n);
    let braced: bool = !urn && n >= 2 && s.get_char(0) == '{' && s.get_char(n - 1) == '}';
    let start: usize = if urn { 9 } else if braced { 1 } else { 0 };
    let wrapper: usize = if urn { 9 } else if braced { 2 } else { 0 };
    let len: usize = n - wrapper;
    let ghost b = body(s@);
    assert(b.len() == len);
    if len != 32 && len != 36 {
        return Err(Error::InvalidLength { expected: 36 + wrapper, actual: n });
    }
    let mut i: usize = 0;
    while i < len
        invariant
            i <= len,
            len == 32 || len == 36,
            n == s@.len(),
            start + len <= n,
            start == body_start(s@),
            b == body(s@),
            b.len() == len,
            clean_before(b, i as int),
        decreases len - i,
    {
        let c: char = s.get_char(start + i);
        assert(b[i as int] == c);
        let hyphen_here: bool = len == 36 && (i == 8 || i == 13 || i == 18 || i == 23);
        if len == 36 && (c == '-') != hyphen_here {
            assert(group_fault(b, i as int));
            return Err(Error::InvalidGroupPosition { position: start + i });
        }
        if !(len == 36 && c == '-') && hex_val(c).is_none() {
            assert(character_fault(b, i as int));
            return Err(Error::InvalidCharacter { position: start + i });
        }
        i += 1;
    }
    let mut bytes: Vec<u8> = Vec::new();
    let mut k: usize = 0;
    while k < 16
        invariant
            k <= 16,
            len == 32 || len == 36,
            n == s@.len(),
            start + len <= n,
            b == body(s@),
            start == body_start(s@),
            b.len() == len,
            clean_before(b, len as int),
            bytes@.len() == k,
            forall|j: int| 0 <= j < k ==> bytes@[j] == text_byte(b, j),
        decreases 16 - k,
    {
        let at_hi: usize = digit_place(len, 2 * k);
        let at_lo: usize = digit_place(len, 2 * k + 1);
        let c_hi: char = s.get_char(start + at_hi);
        let c_lo: char = s.get_char(start + at_lo);
        assert(b[at_hi as int] == c_hi && b[at_lo as int] == c_lo);
        assert(!group_fault(b, at_hi as int) && !character_fault(b, at_hi as int));
        assert(!group_fault(b, at_lo as int) && !character_fault(b, at_lo as int));
        let hi: u8 = match hex_val(c_hi) {
            Some(d) => d,
            None => 0,
        };
        let lo: u8 = match hex_val(c_lo) {
            Some(d) => d,
            None => 0,
        };
        bytes.push(hi << 4 | lo);
        k += 1;
    }
    assert(bytes@ =~= Seq::new(16, |i: int| text_byte(body(s@), i)));
    Ok(Uuid::from_u128(join16(bytes.as_slice())))
}

fn hex_str(n: u8) -> (r: &'static str)
    requires
        n < 16,
    ensures
        r@ == seq![hex_digit(n)],
{
    proof {
        reveal_strlit("0");
        reveal_strlit("1");
        reveal_strlit("2");
        reveal_strlit("3");
        reveal_strlit("4");
        reveal_strlit("5");
        reveal_strlit("6");
        reveal_strlit("7");
        reveal_strlit("8");
        reveal_strlit("9");
        reveal_strlit("a");
        reveal_strlit("b");
        reveal_strlit("c");
        reveal_strlit("d");
        reveal_strlit("e");
        reveal_strlit("f");
    }
    let r: &'static str = if n == 0 {
        "0"
    } else if n == 1 {
        "1"
    } else if n == 2 {
        "2"
    } else if n == 3 {
        "3"
    } else if n == 4 {
        "4"
    } else if n == 5 {
        "5"
    } else if n == 6 {
        "6"
    } else if n == 7 {
        "7"
    } else if n == 8 {
        "8"
    } else if n == 9 {
        "9"
    } else if n == 10 {
        "a"
    } else if n == 11 {
        "b"
    } else if n == 12 {
        "c"
    } else if n == 13 {
        "d"
    } else if n == 14 {
        "e"
    } else {
        "f"
    };
    assert(r@ =~= seq![hex_digit(n)]);
    r
}

fn nibble_of(bytes: &[u8; 16], k: usize) -> (r: u8)
    requires
        k < 32,
    ensures
        r == (if k % 2 == 0 {
            bytes@[k as int / 2] >> 4
        } else {
            bytes@[k as int / 2] & 0xf
        }),
        r < 16,
{
    let byte: u8 = bytes[k / 2];
    assert(byte >> 4 < 16 && byte & 0xf < 16) by (bit_vector);
    if k % 2 == 0 {
        byte >> 4
    } else {
        byte & 0xf
    }
}

/// The canonical form: 36 characters, lowercase, with hyphens.
pub fn format_hyphenated(u: &Uuid) -> (r: String)
    ensures
        r@ == hyphenated_text(u@),
{
    let bytes: [u8; 16] = u.to_bytes();
    let mut out: String = String::new();
    let mut i: usize = 0;
    while i < 36
        invariant
            i <= 36,
            bytes@ == be_bytes(u@),
            out@ =~= Seq::new(i as nat, |j: int| hyphenated_char(u@, j)),
        decreases 36 - i,
    {
        if i == 8 || i == 13 || i == 18 || i == 23 {
            proof {
                reveal_strlit("-");
            }
            let hyphen: &'static str = "-";
            assert(hyphen@ =~= seq!['-']);
            out.append(hyphen);
        } else {
            let k: usize = if i < 8 {
                i
            } else if i < 13 {
                i - 1
            } else if i < 18 {
                i - 2
            } else if i < 23 {
                i - 3
            } else {
                i - 4
            };
            out.append(hex_str(nibble_of(&bytes, k)));
        }
        i += 1;
    }
    assert(out@ =~= hyphenated_text(u@));
    out
}

/// The simple form: 32 lowercase hex digits.
pub fn format_simple(u: &Uuid) -> (r: String)
    ensures
        r@ == simple_text(u@),
{
    let bytes: [u8; 16] = u.to_bytes();
    let mut out: String = String::new();
    let mut k: usize = 0;
    while k < 32
        invariant
            k <= 32,
            bytes@ == be_bytes(u@),
            out@ =~= Seq::new(k as nat, |j: int| hex_digit(nibble(u@, j))),
        decreases 32 - k,
    {
        out.append(hex_str(nibble_of(&bytes, k)));
        k += 1;
    }
    assert(out@ =~= simple_text(u@));
    out
}

/// The braced form: the canonical form between `{` and `}`.
pub fn format_braced(u: &Uuid) -> (r: String)
    ensures
        r@ == braced_text(u@),
{
    proof {
        reveal_strlit("{");
        reveal_strlit("}");
    }
    let open: &'static str = "{";
    let close: &'static str = "}";
    assert(open@ =~= seq!['{'] && close@ =~= seq!['}']);
    let inner: String = format_hyphenated(u);
    let mut out: String = String::new();
    out.append(open);
    out.append(inner.as_str());
    out.append(close);
    assert(out@ =~= braced_text(u@));
    out
}

/// The URN form: the canonical form behind `urn:uuid:`.
pub fn format_urn(u: &Uuid) -> (r: String)
    ensures
        r@ == urn_text(u@),
{
    proof {
        reveal_strlit("urn:uuid:");
    }
    let prefix: &'static str = "urn:uuid:";
    assert(prefix@ =~= urn_prefix());
    let inner: String = format_hyphenated(u);
    let mut out: String = String::new();
    out.append(prefix);
    out.append(inner.as_str());
    assert(out@ =~= urn_text(u@));
    out
}

proof fn lemma_byte_halves(hi: u8, lo: u8)
    requires
        hi < 16,
        lo < 16,
    ensures
        (hi << 4 | lo) >> 4 == hi,
        (hi << 4 | lo) & 0xf == lo,
{
    assert(hi < 16 && lo < 16 ==> (hi << 4 | lo) >> 4 == hi && (hi << 4 | lo) & 0xf == lo)
        by (bit_vector);
}

proof fn lemma_halves_of_byte(b: u8)
    ensures
        b >> 4 < 16,
        b & 0xf < 16,
        (b >> 4) << 4 | (b & 0xf) == b,
{
    assert(b >> 4 < 16 && b & 0xf < 16 && (b >> 4) << 4 | (b & 0xf) == b) by (bit_vector);
}

proof fn lemma_digit_of_value(c: char)
    requires
        hex_value(c) is Some,
    ensures
        hex_value(c).unwrap() < 16,
        hex_digit(hex_value(c).unwrap()) == ascii_lower(c),
{
}

proof fn lemma_value_of_digit(n: u8)
    requires
        n < 16,
    ensures
        hex_value(hex_digit(n)) == Some(n),
{
}

proof fn lemma_canonical_is_plain(s: Seq<char>)
    requires
        canonical(s),
    ensures
        body(s) == s,
        body_start(s) == 0,
        well_formed(s),
{
    assert(hex_value(s[0]) is Some);
    assert(body(s) =~= s);
    assert forall|j: int| 0 <= j < 36 implies !group_fault(s, j) && !character_fault(s, j) by {
        if !is_hyphen_index(j) {
            assert(hex_value(s[j]) is Some);
        }
    }
}

/// A text in the canonical form, its digits in either case, is accepted,
/// and the UUID read from it is written back as the same text in lowercase.
pub proof fn canonical_text_round_trip(s: Seq<char>)
    requires
        canonical(s),
    ensures
        well_formed(s),
        hyphenated_text(text_value(s)) == lower_text(s),
{
    lemma_canonical_is_plain(s);
    let bytes = Seq::new(16, |i: int| text_byte(body(s), i));
    let v = text_value(s);
    value_round_trip(bytes);
    assert forall|i: int| 0 <= i < 36 implies hyphenated_text(v)[i] == lower_text(s)[i] by {
        if !is_hyphen_index(i) {
            let k = digit_number(i);
            let j = k / 2;
            assert(digit_index(36, k) == i);
            assert(be_bytes(v)[j] == be_byte(v, j));
            assert(bytes[j] == text_byte(s, j));
            let c_hi = s[digit_index(36, 2 * j)];
            let c_lo = s[digit_index(36, 2 * j + 1)];
            assert(hex_value(c_hi) is Some && hex_value(c_lo) is Some);
            lemma_digit_of_value(c_hi);
            lemma_digit_of_value(c_lo);
            lemma_byte_halves(hex_value(c_hi).unwrap(), hex_value(c_lo).unwrap());
        }
    }
    assert(hyphenated_text(v) =~= lower_text(s));
}

/// The canonical form of any UUID is accepted and read back as that UUID.
pub proof fn hyphenated_text_reads_back(v: u128)
    ensures
        canonical(hyphenated_text(v)),
        well_formed(hyphenated_text(v)),
        text_value(hyphenated_text(v)) == v,
{
    let t = hyphenated_text(v);
    assert forall|i: int| 0 <= i < 36 && !is_hyphen_index(i) implies hex_value(#[trigger] t[i])
        == Some(nibble(v, digit_number(i))) by {
        lemma_halves_of_byte(be_byte(v, digit_number(i) / 2));
        lemma_value_of_digit(nibble(v, digit_number(i)));
    }
    lemma_canonical_is_plain(t);
    let bytes = Seq::new(16, |i: int| text_byte(body(t), i));
    assert forall|j: int| 0 <= j < 16 implies bytes[j] == be_bytes(v)[j] by {
        let at_hi = digit_index(36, 2 * j);
        let at_lo = digit_index(36, 2 * j + 1);
        assert(!is_hyphen_index(at_hi) && digit_number(at_hi) == 2 * j);
        assert(!is_hyphen_index(at_lo) && digit_number(at_lo) == 2 * j + 1);
        assert(hex_value(t[at_hi]) == Some(nibble(v, 2 * j)));
        assert(hex_value(t[at_lo]) == Some(nibble(v, 2 * j + 1)));
        lemma_halves_of_byte(be_byte(v, j));
    }
    assert(bytes =~= be_bytes(v));
    lemma_join_of_split(v);
}

/// What a text spells depends on its body alone, not on what wraps it.
proof fn lemma_same_body(s: Seq<char>, t: Seq<char>)
    requires
        body(s) == body(t),
    ensures
        well_formed(s) == well_formed(t),
        text_value(s) == text_value(t),
{
    assert(Seq::new(16, |i: int| text_byte(body(s), i)) =~= Seq::new(
        16,
        |i: int| text_byte(body(t), i),
    ));
}

proof fn lemma_body_in_braces(h: Seq<char>)
    requires
        h.len() == 36,
    ensures
        body(seq!['{'] + h + seq!['}']) == h,
{
    let b = seq!['{'] + h + seq!['}'];
    assert(b.len() == 38 && b[0] == '{' && b[37] == '}');
    assert(!is_urn(b));
    assert(is_braced(b));
    assert(body(b) =~= h);
}

proof fn lemma_body_behind_urn_prefix(h: Seq<char>)
    requires
        h.len() == 36,
    ensures
        body(urn_prefix() + h) == h,
{
    let p = urn_prefix();
    let u = p + h;
    assert(p.len() == 9);
    assert(u.len() == 45);
    assert(u[0] == p[0] && u[1] == p[1] && u[2] == p[2] && u[3] == p[3] && u[4] == p[4] && u[5]
        == p[5] && u[6] == p[6] && u[7] == p[7] && u[8] == p[8]);
    assert(is_urn(u));
    assert(body(u) =~= h);
}

proof fn lemma_braced_reads_back(v: u128)
    ensures
        well_formed(braced_text(v)),
        text_value(braced_text(v)) == v,
{
    let h = hyphenated_text(v);
    hyphenated_text_reads_back(v);
    lemma_canonical_is_plain(h);
    lemma_body_in_braces(h);
    lemma_same_body(braced_text(v), h);
}

proof fn lemma_urn_reads_back(v: u128)
    ensures
        well_formed(urn_text(v)),
        text_value(urn_text(v)) == v,
{
    let h = hyphenated_text(v);
    hyphenated_text_reads_back(v);
    lemma_canonical_is_plain(h);
    lemma_body_behind_urn_prefix(h);
    lemma_same_body(urn_text(v), h);
}

proof fn lemma_simple_is_plain(t: Seq<char>)
    requires
        t.len() == 32,
        forall|k: int| 0 <= k < 32 ==> hex_value(#[trigger] t[k]) is Some,
    ensures
        body(t) == t,
        well_formed(t),
{
    assert(hex_value(t[0]) is Some);
    assert(body(t) =~= t);
    assert forall|j: int| 0 <= j < 32 implies !group_fault(t, j) && !character_fault(t, j) by {
        assert(hex_value(t[j]) is Some);
    }
}

proof fn lemma_simple_reads_back(v: u128)
    ensures
        well_formed(simple_text(v)),
        text_value(simple_text(v)) == v,
{
    let t = simple_text(v);
    assert forall|k: int| 0 <= k < 32 implies hex_value(#[trigger] t[k]) == Some(
        nibble(v, k),
    ) by {
        lemma_halves_of_byte(be_byte(v, k / 2));
        lemma_value_of_digit(nibble(v, k));
    }
    lemma_simple_is_plain(t);
    let bytes = Seq::new(16, |i: int| text_byte(body(t), i));
    assert forall|j: int| 0 <= j < 16 implies bytes[j] == be_bytes(v)[j] by {
        assert(hex_value(t[2 * j]) == Some(nibble(v, 2 * j)));
        assert(hex_value(t[2 * j + 1]) == Some(nibble(v, 2 * j + 1)));
        lemma_halves_of_byte(be_byte(v, j));
    }
    assert(bytes =~= be_bytes(v));
    lemma_join_of_split(v);
}

/// Each of the four written forms of any UUID is accepted and read back as
/// that UUID.
pub proof fn written_forms_read_back(v: u128)
    ensures
        well_formed(hyphenated_text(v)) && text_value(hyphenated_text(v)) == v,
        well_formed(simple_text(v)) && text_value(simple_text(v)) == v,
        well_formed(braced_text(v)) && text_value(braced_text(v)) == v,
        well_formed(urn_text(v)) && text_value(urn_text(v)) == v,
{
    hyphenated_text_reads_back(v);
    lemma_simple_reads_back(v);
    lemma_braced_reads_back(v);
    lemma_urn_reads_back(v);
}

} // verus!
