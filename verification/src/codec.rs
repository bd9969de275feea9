//! The binary encoding of payload fields, by the `wincode` crate with variable-length integers.

use vstd::prelude::*;
use vstd::utf8::*;

verus! {

/// The error with which `wincode` refuses to write a value.
#[verifier::external_type_specification]
#[verifier::external_body]
pub struct ExWriteError(wincode::WriteError);

/// The error with which `wincode` refuses to read a value.
#[verifier::external_type_specification]
#[verifier::external_body]
pub struct ExReadError(wincode::ReadError);

/// The longest text or byte string that is written or read, in bytes: 4 MiB.
pub const MAX_FIELD_LEN: usize = 4194304;

/// The `width` low bytes of a number, least significant first.
pub open spec fn le_bytes(n: nat, width: nat) -> Seq<u8>
    decreases width,
{
    if width == 0 {
        Seq::empty()
    } else {
        seq![(n % 256) as u8] + le_bytes(n / 256, (width - 1) as nat)
    }
}

/// The number that bytes stand for, least significant first.
pub open spec fn le_value(bytes: Seq<u8>) -> nat
    decreases bytes.len(),
{
    if bytes.len() == 0 {
        0
    } else {
        bytes[0] as nat + 256 * le_value(bytes.drop_first())
    }
}

/// A length on the wire: one byte up to 250, else a marker byte and two, four or eight bytes.
pub open spec fn encoded_len(n: nat) -> Seq<u8> {
    if n <= 250 {
        seq![n as u8]
    } else if n <= 0xffff {
        seq![251u8] + le_bytes(n, 2)
    } else if n <= 0xffff_ffff {
        seq![252u8] + le_bytes(n, 4)
    } else {
        seq![253u8] + le_bytes(n, 8)
    }
}

/// How many bytes follow the first byte of a length; `None` for a byte that starts none.
pub open spec fn len_width(marker: u8) -> Option<nat> {
    if marker <= 250 {
        Some(0)
    } else if marker == 251 {
        Some(2)
    } else if marker == 252 {
        Some(4)
    } else if marker == 253 {
        Some(8)
    } else {
        None
    }
}

/// The length at the front of the bytes, and how many bytes it takes.
pub open spec fn decoded_len(bytes: Seq<u8>) -> Option<(nat, nat)> {
    if bytes.len() == 0 {
        None
    } else {
        match len_width(bytes[0]) {
            None => None,
            Some(width) => if bytes.len() < 1 + width {
                None
            } else if width == 0 {
                Some((bytes[0] as nat, 1))
            } else {
                Some((le_value(bytes.subrange(1, 1 + width as int)), 1 + width))
            },
        }
    }
}

/// Bytes on the wire: their length, then themselves.
pub open spec fn encoded_bytes(bytes: Seq<u8>) -> Seq<u8> {
    encoded_len(bytes.len()) + bytes
}

/// The length-prefixed bytes at the front of a message. What follows them is not looked at.
pub open spec fn decoded_bytes(bytes: Seq<u8>) -> Option<Seq<u8>> {
    match decoded_len(bytes) {
        None => None,
        Some((len, start)) => if len > MAX_FIELD_LEN || start + len > bytes.len() {
            None
        } else {
            Some(bytes.subrange(start as int, (start + len) as int))
        },
    }
}

/// Text on the wire: its UTF-8 bytes, length-prefixed.
pub open spec fn encoded_text(text: Seq<char>) -> Seq<u8> {
    encoded_bytes(encode_utf8(text))
}

/// The text at the front of a message. What follows it is not looked at.
pub open spec fn decoded_text(bytes: Seq<u8>) -> Option<Seq<char>> {
    match decoded_bytes(bytes) {
        None => None,
        Some(utf8) => if valid_utf8(utf8) {
            Some(decode_utf8(utf8))
        } else {
            None
        },
    }
}

/// The sixteen bytes at the front of a message. What follows them is not looked at.
pub open spec fn decoded_id(bytes: Seq<u8>) -> Option<Seq<u8>> {
    if bytes.len() < 16 {
        None
    } else {
        Some(bytes.take(16))
    }
}

/// Writes text with `wincode::config::serialize`, with variable-length integers.
///
/// The text comes out as its length in UTF-8 bytes and those bytes. The call fails exactly where
/// that length is over the 4 MiB that the default configuration allows for one allocation.
#[verifier::external_body]
pub(crate) fn write_text(text: &String) -> (written: Result<Vec<u8>, wincode::WriteError>)
    ensures
        match written {
            Ok(bytes) => {
                &&& encode_utf8(text@).len() <= MAX_FIELD_LEN
                &&& bytes@ == encoded_text(text@)
            },
            Err(_) => encode_utf8(text@).len() > MAX_FIELD_LEN,
        },
{
    let config = wincode::config::Configuration::default().with_varint_encoding();
    wincode::config::serialize(text, config)
}

/// Reads text with `wincode::config::deserialize`, with variable-length integers.
///
/// The call fails exactly where the bytes do not begin with a length that the format knows, where
/// that length is over 4 MiB, where fewer bytes follow than it says, and where those are not UTF-8.
/// Bytes behind the text are not looked at.
#[verifier::external_body]
pub(crate) fn read_text(bytes: &[u8]) -> (read: Result<String, wincode::ReadError>)
    ensures
        match read {
            Ok(text) => decoded_text(bytes@) == Some(text@),
            Err(_) => decoded_text(bytes@) is None,
        },
{
    let config = wincode::config::Configuration::default().with_varint_encoding();
    wincode::config::deserialize(bytes, config)
}

/// Writes a byte string with `wincode::config::serialize`, with variable-length integers.
///
/// It comes out as its length and its bytes. The call fails exactly where the length is over the
/// 4 MiB that the default configuration allows for one allocation.
#[verifier::external_body]
pub(crate) fn write_bytes(data: &Vec<u8>) -> (written: Result<Vec<u8>, wincode::WriteError>)
    ensures
        match written {
            Ok(bytes) => {
                &&& data@.len() <= MAX_FIELD_LEN
                &&& bytes@ == encoded_bytes(data@)
            },
            Err(_) => data@.len() > MAX_FIELD_LEN,
        },
{
    let config = wincode::config::Configuration::default().with_varint_encoding();
    wincode::config::serialize(data, config)
}

/// Writes sixteen bytes with `wincode::config::serialize`: they come out as they are, always.
#[verifier::external_body]
pub(crate) fn write_id(id: &[u8; 16]) -> (written: Result<Vec<u8>, wincode::WriteError>)
    ensures
        written is Ok,
        written->Ok_0@ == id@,
{
    let config = wincode::config::Configuration::default().with_varint_encoding();
    wincode::config::serialize(id, config)
}

/// Reads sixteen bytes with `wincode::config::deserialize`.
///
/// They are the first sixteen, and the call fails exactly where there are fewer. Bytes behind them
/// are not looked at.
#[verifier::external_body]
pub(crate) fn read_id(bytes: &[u8]) -> (read: Result<[u8; 16], wincode::ReadError>)
    ensures
        match read {
            Ok(id) => decoded_id(bytes@) == Some(id@),
            Err(_) => decoded_id(bytes@) is None,
        },
{
    let config = wincode::config::Configuration::default().with_varint_encoding();
    wincode::config::deserialize(bytes, config)
}

/// A number that fits in `width` bytes is read back from them.
pub proof fn lemma_le_round_trip(n: nat, width: nat)
    requires
        width == 2 ==> n < 0x1_0000,
        width == 4 ==> n < 0x1_0000_0000,
        width == 8 ==> n < 0x1_0000_0000_0000_0000,
        width == 2 || width == 4 || width == 8,
    ensures
        le_bytes(n, width).len() == width,
        le_value(le_bytes(n, width)) == n,
{
    if width == 2 {
        lemma_le_bytes(n, 2, 0x1_0000);
    } else if width == 4 {
        lemma_le_bytes(n, 4, 0x1_0000_0000);
    } else {
        lemma_le_bytes(n, 8, 0x1_0000_0000_0000_0000);
    }
}

proof fn lemma_le_bytes(n: nat, width: nat, range: nat)
    requires
        n < range,
        width <= 8,
        width == 0 ==> range == 1,
        width == 1 ==> range == 0x100,
        width == 2 ==> range == 0x1_0000,
        width == 3 ==> range == 0x100_0000,
        width == 4 ==> range == 0x1_0000_0000,
        width == 5 ==> range == 0x100_0000_0000,
        width == 6 ==> range == 0x1_0000_0000_0000,
        width == 7 ==> range == 0x100_0000_0000_0000,
        width == 8 ==> range == 0x1_0000_0000_0000_0000,
    ensures
        le_bytes(n, width).len() == width,
        le_value(le_bytes(n, width)) == n,
    decreases width,
{
    if width > 0 {
        let rest = le_bytes(n / 256, (width - 1) as nat);
        lemma_le_bytes(n / 256, (width - 1) as nat, range / 256);
        assert(le_bytes(n, width).drop_first() =~= rest);
    }
}

/// A length that fits in eight bytes is read back from its encoding, whatever follows.
pub proof fn law_len_round_trip(n: nat, rest: Seq<u8>)
    requires
        n <= u64::MAX,
    ensures
        decoded_len(encoded_len(n) + rest) == Some((n, encoded_len(n).len())),
{
    let whole = encoded_len(n) + rest;
    if n > 250 {
        let width: nat = if n <= 0xffff {
            2
        } else if n <= 0xffff_ffff {
            4
        } else {
            8
        };
        lemma_le_round_trip(n, width);
        assert(whole.subrange(1, 1 + width as int) =~= le_bytes(n, width));
    }
}

/// A byte string that can be written is read back, whatever follows.
pub proof fn law_bytes_round_trip(data: Seq<u8>, rest: Seq<u8>)
    requires
        data.len() <= MAX_FIELD_LEN,
    ensures
        decoded_bytes(encoded_bytes(data) + rest) == Some(data),
{
    let prefix = encoded_len(data.len());
    law_len_round_trip(data.len(), data + rest);
    let whole = encoded_bytes(data) + rest;
    assert(whole =~= prefix + (data + rest));
    assert(whole.subrange(prefix.len() as int, (prefix.len() + data.len()) as int) =~= data);
}

/// Text that can be written is read back, whatever follows.
pub proof fn law_text_round_trip(text: Seq<char>, rest: Seq<u8>)
    requires
        encode_utf8(text).len() <= MAX_FIELD_LEN,
    ensures
        decoded_text(encoded_text(text) + rest) == Some(text),
{
    law_bytes_round_trip(encode_utf8(text), rest);
    encode_utf8_valid_utf8(text);
    encode_utf8_decode_utf8(text);
}

} // verus!
