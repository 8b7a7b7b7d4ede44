//! Release identifiers: the SHA-1 digest of a release's date and name, in
//! lowercase hexadecimal.

use crate::digest::sha1_digest;
use crate::digest::sha1_of;
use vstd::prelude::*;
use vstd::string::StringExecFns;
use vstd::string::StringSliceAdditionalSpecFns;
use vstd::utf8::encode_utf8;

verus! {

/// The lowercase hexadecimal digit of a number below sixteen; `f` for any
/// other number.
pub open spec fn hex_char(nibble: int) -> char {
    if nibble == 0 {
        '0'
    } else if nibble == 1 {
        '1'
    } else if nibble == 2 {
        '2'
    } else if nibble == 3 {
        '3'
    } else if nibble == 4 {
        '4'
    } else if nibble == 5 {
        '5'
    } else if nibble == 6 {
        '6'
    } else if nibble == 7 {
        '7'
    } else if nibble == 8 {
        '8'
    } else if nibble == 9 {
        '9'
    } else if nibble == 10 {
        'a'
    } else if nibble == 11 {
        'b'
    } else if nibble == 12 {
        'c'
    } else if nibble == 13 {
        'd'
    } else if nibble == 14 {
        'e'
    } else {
        'f'
    }
}

/// Bytes in lowercase hexadecimal, two digits to a byte, the high one first.
pub open spec fn hex_of(bytes: Seq<u8>) -> Seq<char> {
    Seq::new(
        2 * bytes.len(),
        |i: int|
            if i % 2 == 0 {
                hex_char(bytes[i / 2] as int / 16)
            } else {
                hex_char(bytes[i / 2] as int % 16)
            },
    )
}

/// The identifier of the release with the given date and name: the digest
/// of the bytes of the date followed by those of the name, both in UTF-8.
pub open spec fn release_id(date: Seq<char>, name: Seq<char>) -> Seq<char> {
    hex_of(sha1_of(encode_utf8(date) + encode_utf8(name)))
}

/// The lowercase hexadecimal digit of a number below sixteen; `f` for any
/// other number.
pub fn hex_digit(nibble: u8) -> (digit: &'static str)
    ensures
        digit@ == seq![hex_char(nibble as int)],
{
    proof {
        reveal_strlit("0");
        reveal_strlit("1");
        reveal_strlit("2");
        reveal_strlit("3");
        reveal_strlit("4");
        reveal_strlit("5");
        reveal_strlit("6");
        reveal_strlit("7");
        reveal_strlit("8");
        reveal_strlit("9");
        reveal_strlit("a");
        reveal_strlit("b");
        reveal_strlit("c");
        reveal_strlit("d");
        reveal_strlit("e");
        reveal_strlit("f");
    }
    let digit: &'static str = match nibble {
        0 => "0",
        1 => "1",
        2 => "2",
        3 => "3",
        4 => "4",
        5 => "5",
        6 => "6",
        7 => "7",
        8 => "8",
        9 => "9",
        10 => "a",
        11 => "b",
        12 => "c",
        13 => "d",
        14 => "e",
        _ => "f",
    };
    assert(digit@ =~= seq![hex_char(nibble as int)]);
    digit
}

/// Bytes in lowercase hexadecimal.
pub fn hex_lower(bytes: &[u8]) -> (text: String)
    ensures
        text@ == hex_of(bytes@),
{
    let mut text = String::new();
    let mut i: usize = 0;
    while i < bytes.len()
        invariant
            i <= bytes.len(),
            text@ =~= hex_of(bytes@.subrange(0, i as int)),
        decreases bytes.len() - i,
    {
        let ghost before = text@;
        let byte: u8 = bytes[i];
        text.append(hex_digit(byte / 16));
        text.append(hex_digit(byte % 16));
        assert(text@ =~= before + seq![hex_char(byte as int / 16), hex_char(byte as int % 16)]);
        assert(text@ =~= hex_of(bytes@.subrange(0, i + 1)));
        i += 1;
    }
    assert(bytes@.subrange(0, bytes.len() as int) =~= bytes@);
    text
}

/// The identifier of the release with the given date and name: the digest
/// of the bytes of the date followed by those of the name.
pub fn generate_id(date: &str, name: &str) -> (id: String)
    ensures
        id@ == release_id(date@, name@),
        id@.len() == 40,
{
    let first = date.as_bytes();
    let second = name.as_bytes();
    let mut joined: Vec<u8> = Vec::new();
    let mut i: usize = 0;
    while i < first.len()
        invariant
            i <= first.len(),
            joined@ =~= first@.subrange(0, i as int),
        decreases first.len() - i,
    {
        joined.push(first[i]);
        i += 1;
    }
    let mut j: usize = 0;
    while j < second.len()
        invariant
            j <= second.len(),
            joined@ =~= first@ + second@.subrange(0, j as int),
        decreases second.len() - j,
    {
        joined.push(second[j]);
        j += 1;
    }
    assert(joined@ =~= first@ + second@);
    hex_lower(sha1_digest(joined.as_slice()).as_slice())
}

} // verus!
