//! The canonical form of a block, the bytes that are hashed, and the digest
//! that comes of them.
//!
//! The form is compact JSON, one object with the members `index`,
//! `timestamp`, `proof` and `previous_hash` in this order, the numbers in
//! decimal and the strings quoted and escaped.

use crate::block::{Block, BlockView};
use crate::sha256::sha256_of;
use crate::text::{decimal_string, decimal_text, hex_char, hex_lower};
use vstd::prelude::*;
use vstd::string::StringSliceAdditionalSpecFns;
use vstd::utf8::encode_utf8;

verus! {

/// The ASCII code of the hexadecimal digit that stands for `value`.
pub open spec fn hex_code(value: int) -> u8
    recommends
        0 <= value < 16,
{
    hex_char(value) as u8
}

/// How one byte of a string stands between the quotes: the quote and the
/// backslash behind a backslash, a control character as its short escape or as
/// `\u00` and two hexadecimal digits, every other byte as itself.
pub open spec fn escape_byte(byte: u8) -> Seq<u8> {
    if byte == 0x22 {
        seq![0x5cu8, 0x22u8]
    } else if byte == 0x5c {
        seq![0x5cu8, 0x5cu8]
    } else if byte == 0x08 {
        seq![0x5cu8, 0x62u8]
    } else if byte == 0x09 {
        seq![0x5cu8, 0x74u8]
    } else if byte == 0x0a {
        seq![0x5cu8, 0x6eu8]
    } else if byte == 0x0c {
        seq![0x5cu8, 0x66u8]
    } else if byte == 0x0d {
        seq![0x5cu8, 0x72u8]
    } else if byte < 0x20 {
        seq![
            0x5cu8,
            0x75u8,
            0x30u8,
            0x30u8,
            hex_code(byte as int / 16),
            hex_code(byte as int % 16),
        ]
    } else {
        seq![byte]
    }
}

/// The bytes of a string with each of them escaped, in order.
pub open spec fn escaped(bytes: Seq<u8>) -> Seq<u8>
    decreases bytes.len(),
{
    if bytes.len() == 0 {
        seq![]
    } else {
        escaped(bytes.drop_last()) + escape_byte(bytes.last())
    }
}

/// A string as a JSON string: its UTF-8 bytes, escaped, between two quotes.
pub open spec fn json_string(text: Seq<char>) -> Seq<u8> {
    seq![0x22u8] + escaped(encode_utf8(text)) + seq![0x22u8]
}

/// A number as a JSON number: its decimal numeral.
pub open spec fn json_number(n: nat) -> Seq<u8> {
    encode_utf8(decimal_text(n))
}

/// The canonical form of a block, such as
/// `{"index":1,"timestamp":"1700000000000","proof":1,"previous_hash":"0"}`.
pub open spec fn canonical_form(block: BlockView) -> Seq<u8> {
    "{\"index\":".spec_bytes()
        + json_number(block.index)
        + ",\"timestamp\":".spec_bytes()
        + json_string(block.timestamp)
        + ",\"proof\":".spec_bytes()
        + json_number(block.proof as nat)
        + ",\"previous_hash\":".spec_bytes()
        + json_string(block.previous_hash)
        + "}".spec_bytes()
}

/// The digest of a block: the SHA-256 of its canonical form, in lowercase
/// hexadecimal.
pub open spec fn block_digest(block: BlockView) -> Seq<char> {
    hex_lower(sha256_of(canonical_form(block)))
}

/// Appends `bytes` to `out`.
fn push_bytes(out: &mut Vec<u8>, bytes: &[u8])
    ensures
        final(out)@ == old(out)@ + bytes@,
{
    let mut i: usize = 0;
    while i < bytes.len()
        invariant
            i <= bytes@.len(),
            out@ == old(out)@ + bytes@.take(i as int),
        decreases bytes@.len() - i,
    {
        out.push(bytes[i]);
        i += 1;
        assert(out@ =~= old(out)@ + bytes@.take(i as int));
    }
    assert(bytes@.take(i as int) =~= bytes@);
}

/// The ASCII code of a hexadecimal digit.
fn hex_code_of(value: u8) -> (code: u8)
    requires
        value < 16,
    ensures
        code == hex_code(value as int),
{
    if value < 10 {
        48 + value
    } else {
        87 + value
    }
}

/// Appends one byte of a string, escaped.
fn push_escaped_byte(out: &mut Vec<u8>, byte: u8)
    ensures
        final(out)@ == old(out)@ + escape_byte(byte),
{
    if byte == 0x22 || byte == 0x5c {
        out.push(0x5c);
        out.push(byte);
    } else if byte == 0x08 {
        out.push(0x5c);
        out.push(0x62);
    } else if byte == 0x09 {
        out.push(0x5c);
        out.push(0x74);
    } else if byte == 0x0a {
        out.push(0x5c);
        out.push(0x6e);
    } else if byte == 0x0c {
        out.push(0x5c);
        out.push(0x66);
    } else if byte == 0x0d {
        out.push(0x5c);
        out.push(0x72);
    } else if byte < 0x20 {
        out.push(0x5c);
        out.push(0x75);
        out.push(0x30);
        out.push(0x30);
        out.push(hex_code_of(byte / 16));
        out.push(hex_code_of(byte % 16));
    } else {
        out.push(byte);
    }
    assert(out@ =~= old(out)@ + escape_byte(byte));
}

/// Appends `text` as a JSON string.
pub fn push_json_string(out: &mut Vec<u8>, text: &str)
    ensures
        final(out)@ == old(out)@ + json_string(text@),
{
    let bytes = text.as_bytes();
    out.push(0x22);
    let mut i: usize = 0;
    while i < bytes.len()
        invariant
            i <= bytes@.len(),
            out@ == old(out)@ + seq![0x22u8] + escaped(bytes@.take(i as int)),
        decreases bytes@.len() - i,
    {
        push_escaped_byte(out, bytes[i]);
        i += 1;
        assert(bytes@.take(i as int).drop_last() =~= bytes@.take(i - 1));
    }
    assert(bytes@.take(i as int) =~= bytes@);
    out.push(0x22);
    assert(out@ =~= old(out)@ + json_string(text@));
}

/// Appends `n` as a JSON number.
pub fn push_json_number(out: &mut Vec<u8>, n: u128)
    ensures
        final(out)@ == old(out)@ + json_number(n as nat),
{
    let numeral = decimal_string(n);
    push_bytes(out, numeral.as_str().as_bytes());
}

/// Writes out the canonical form of `block`.
pub fn encode_block(block: &Block) -> (bytes: Vec<u8>)
    ensures
        bytes@ == canonical_form(block@),
{
    let mut bytes: Vec<u8> = Vec::new();
    push_bytes(&mut bytes, "{\"index\":".as_bytes());
    push_json_number(&mut bytes, block.index as u128);
    push_bytes(&mut bytes, ",\"timestamp\":".as_bytes());
    push_json_string(&mut bytes, block.timestamp.as_str());
    push_bytes(&mut bytes, ",\"proof\":".as_bytes());
    push_json_number(&mut bytes, block.proof as u128);
    push_bytes(&mut bytes, ",\"previous_hash\":".as_bytes());
    push_json_string(&mut bytes, block.previous_hash.as_str());
    push_bytes(&mut bytes, "}".as_bytes());
    assert(bytes@ =~= canonical_form(block@));
    bytes
}

} // verus!
