//! The text codec: fixed-width sequences of 16-bit code units in the games'
//! proprietary character table, converted to text and back.
//!
//! A name field holds exactly its width in code units; it is not
//! null-terminated within the count. Decoding maps each unit through the
//! character table (unmapped units become a placeholder) and trims everything
//! from the first terminator unit on. Encoding maps each character back and
//! pads the field to its width with terminator units.

use vstd::prelude::*;

verus! {

/// The code unit that terminates a name and pads the rest of its field.
pub const TERMINATOR: u16 = 0xFFFF;

/// The unit that unmappable characters encode to; it is outside the
/// character table, so it decodes to the placeholder.
pub const UNKNOWN_UNIT: u16 = 0x0000;

/// The ASCII byte a code unit maps to: the character table covers digits,
/// uppercase and lowercase letters and the space; anything else becomes the
/// placeholder `?`.
pub open spec fn ascii_of_unit(u: u16) -> u8 {
    if 0x0121 <= u <= 0x012A {
        (0x30 + (u - 0x0121)) as u8
    } else if 0x012B <= u <= 0x0144 {
        (0x41 + (u - 0x012B)) as u8
    } else if 0x0145 <= u <= 0x015E {
        (0x61 + (u - 0x0145)) as u8
    } else if u == 0x01DE {
        0x20
    } else {
        0x3F
    }
}

/// The character a code unit decodes to.
pub open spec fn char_of_unit(u: u16) -> char {
    ascii_of_unit(u) as char
}

/// The code unit a character encodes to: the inverse of the character table
/// where one exists, and [`UNKNOWN_UNIT`] elsewhere.
pub open spec fn unit_of_char(c: char) -> u16 {
    let v = c as u32;
    if 0x30 <= v <= 0x39 {
        (0x0121 + (v - 0x30)) as u16
    } else if 0x41 <= v <= 0x5A {
        (0x012B + (v - 0x41)) as u16
    } else if 0x61 <= v <= 0x7A {
        (0x0145 + (v - 0x61)) as u16
    } else if v == 0x20 {
        0x01DE
    } else {
        UNKNOWN_UNIT
    }
}

/// The number of code units before the first terminator, or the length of
/// the field when no terminator occurs.
pub open spec fn term_at(units: Seq<u16>) -> int
    decreases units.len(),
{
    if units.len() == 0 {
        0
    } else if units[0] == TERMINATOR {
        0
    } else {
        1 + term_at(units.skip(1))
    }
}

/// The text a fixed-width field of code units decodes to: the units before
/// the first terminator, mapped through the character table.
pub open spec fn decoded(units: Seq<u16>) -> Seq<char> {
    Seq::new(term_at(units) as nat, |i: int| char_of_unit(units[i]))
}

/// The padded field of `width` code units that a text encodes to.
pub open spec fn encoded(text: Seq<char>, width: int) -> Seq<u16> {
    Seq::new(
        width as nat,
        |i: int|
            if i < text.len() {
                unit_of_char(text[i])
            } else {
                TERMINATOR
            },
    )
}

/// `term_at` names exactly the position of the first terminator.
pub proof fn lemma_term_at(units: Seq<u16>, k: int)
    requires
        0 <= k <= units.len(),
        forall|j: int| 0 <= j < k ==> units[j] != TERMINATOR,
        k == units.len() || units[k] == TERMINATOR,
    ensures
        term_at(units) == k,
    decreases k,
{
    if units.len() == 0 {
    } else if units[0] == TERMINATOR {
    } else {
        lemma_term_at(units.skip(1), k - 1);
    }
}

/// Maps one code unit to its ASCII byte.
pub fn ascii_of(u: u16) -> (b: u8)
    ensures
        b == ascii_of_unit(u),
        b < 128,
{
    if 0x0121 <= u && u <= 0x012A {
        0x30 + ((u - 0x0121) as u8)
    } else if 0x012B <= u && u <= 0x0144 {
        0x41 + ((u - 0x012B) as u8)
    } else if 0x0145 <= u && u <= 0x015E {
        0x61 + ((u - 0x0145) as u8)
    } else if u == 0x01DE {
        0x20
    } else {
        0x3F
    }
}

/// Maps one character to its code unit.
pub fn encode_char(c: char) -> (u: u16)
    ensures
        u == unit_of_char(c),
{
    let v = c as u32;
    if 0x30 <= v && v <= 0x39 {
        0x0121 + ((v - 0x30) as u16)
    } else if 0x41 <= v && v <= 0x5A {
        0x012B + ((v - 0x41) as u16)
    } else if 0x61 <= v && v <= 0x7A {
        0x0145 + ((v - 0x61) as u16)
    } else if v == 0x20 {
        0x01DE
    } else {
        UNKNOWN_UNIT
    }
}

/// Relies on `String::from_utf8`: a sequence of ASCII bytes is valid UTF-8
/// and decodes to exactly those characters, one per byte.
#[verifier::external_body]
fn ascii_to_string(bytes: Vec<u8>) -> (r: String)
    requires
        forall|i: int| 0 <= i < bytes@.len() ==> bytes@[i] < 128,
    ensures
        r@ == bytes@.map_values(|b: u8| b as char),
{
    match String::from_utf8(bytes) {
        Ok(s) => s,
        Err(_) => String::new(),
    }
}

/// Decodes a fixed-width name field: every unit before the first terminator
/// is mapped through the character table, and the terminator padding is
/// trimmed.
pub fn decode_units(units: &Vec<u16>) -> (r: String)
    ensures
        r@ == decoded(units@),
{
    let n = units.len();
    let mut k: usize = 0;
    while k < n && units[k] != TERMINATOR
        invariant
            k <= n,
            n == units@.len(),
            forall|j: int| 0 <= j < k ==> units@[j] != TERMINATOR,
        decreases n - k,
    {
        k = k + 1;
    }
    proof {
        lemma_term_at(units@, k as int);
    }
    let mut bytes: Vec<u8> = Vec::new();
    let mut i: usize = 0;
    while i < k
        invariant
            i <= k,
            k <= units@.len(),
            bytes@.len() == i,
            forall|j: int| 0 <= j < i ==> bytes@[j] == ascii_of_unit(units@[j]) && bytes@[j] < 128,
        decreases k - i,
    {
        bytes.push(ascii_of(units[i]));
        i = i + 1;
    }
    let r = ascii_to_string(bytes);
    proof {
        assert(r@ =~= decoded(units@));
    }
    r
}

/// Encodes a text into a fixed-width field of `width` code units, padding
/// with terminators; characters beyond the width are dropped.
pub fn encode_units(text: &str, width: usize) -> (r: Vec<u16>)
    ensures
        r@ == encoded(text@, width as int),
{
    let n = text.unicode_len();
    let mut out: Vec<u16> = Vec::new();
    let mut i: usize = 0;
    while i < width
        invariant
            i <= width,
            n == text@.len(),
            out@.len() == i,
            forall|j: int|
                0 <= j < i ==> out@[j] == (if j < n {
                    unit_of_char(text@[j])
                } else {
                    TERMINATOR
                }),
        decreases width - i,
    {
        if i < n {
            out.push(encode_char(text.get_char(i)));
        } else {
            out.push(TERMINATOR);
        }
        i = i + 1;
    }
    proof {
        assert(out@ =~= encoded(text@, width as int));
    }
    out
}

} // verus!
