//! The generic bus capability. A plugin hands the bytes to write as
//! hexadecimal text and gets the bytes read back as hexadecimal text; the
//! host turns text into bytes and bytes into text, and reports every failure
//! as a value.

use vstd::prelude::*;
use vstd::string::StringSliceAdditionalSpecFns;
use crate::error::HostError;
use vstd::string::StrSliceExecFns;
use crate::text::{occurs_at, parse_u8, starts_with, unsigned_of};

verus! {

/// The value of a hexadecimal digit given as a byte of text, in either case.
pub open spec fn nibble_of(b: u8) -> Option<u8> {
    if 0x30 <= b <= 0x39 {
        Some((b - 0x30) as u8)
    } else if 0x61 <= b <= 0x66 {
        Some((b - 0x61 + 10) as u8)
    } else if 0x41 <= b <= 0x46 {
        Some((b - 0x41 + 10) as u8)
    } else {
        None
    }
}

/// The text is hexadecimal: an even number of digits.
pub open spec fn is_hex(text: Seq<u8>) -> bool {
    &&& text.len() % 2 == 0
    &&& forall|i: int| 0 <= i < text.len() ==> (#[trigger] nibble_of(text[i])) is Some
}

/// The bytes that hexadecimal text stands for: two digits a byte, the high
/// one first.
pub open spec fn bytes_of_hex(text: Seq<u8>) -> Seq<u8> {
    Seq::new(
        text.len() / 2,
        |i: int| (nibble_of(text[2 * i]).unwrap() * 16 + nibble_of(text[2 * i + 1]).unwrap()) as u8,
    )
}

/// The lower-case hexadecimal digit of a value below sixteen.
pub open spec fn digit_of(nibble: int) -> char {
    if nibble < 10 {
        ((0x30 + nibble) as u8) as char
    } else {
        ((0x61 + nibble - 10) as u8) as char
    }
}

/// Bytes as hexadecimal text: two lower-case digits a byte, the high one
/// first.
pub open spec fn hex_of_bytes(bytes: Seq<u8>) -> Seq<char> {
    Seq::new(
        2 * bytes.len(),
        |i: int|
            if i % 2 == 0 {
                digit_of(bytes[i / 2] as int / 16)
            } else {
                digit_of(bytes[i / 2] as int % 16)
            },
    )
}

/// `hex::FromHexError`, which says why text is not hexadecimal.
#[verifier::external_type_specification]
#[verifier::external_body]
pub struct ExFromHexError(hex::FromHexError);

/// `hex::decode` on text: it succeeds on an even number of hexadecimal
/// digits of either case, and then gives one byte for each two digits, the
/// high digit first. On anything else it fails.
#[verifier::external_body]
fn hex_decode(text: &str) -> (decoded: Result<Vec<u8>, hex::FromHexError>)
    ensures
        decoded is Ok <==> is_hex(text.spec_bytes()),
        decoded matches Ok(bytes) ==> bytes@ == bytes_of_hex(text.spec_bytes()),
{
    hex::decode(text)
}

/// `to_string` of `hex::FromHexError`: the words of the failure. Nothing is
/// claimed of them.
#[verifier::external_body]
fn hex_error_text(failure: &hex::FromHexError) -> (words: String) {
    failure.to_string()
}

/// `hex::encode`: two lower-case digits for each byte, the high one first.
#[verifier::external_body]
fn hex_encode(bytes: &Vec<u8>) -> (text: String)
    ensures
        text@ == hex_of_bytes(bytes@),
{
    hex::encode(bytes)
}

/// What is asked of the bus.
pub struct BusRequest {
    /// The address of the device.
    pub address: u16,
    /// The bytes to write first; none means that nothing is written.
    pub write: Vec<u8>,
    /// How many bytes to read afterwards; zero means that nothing is read.
    pub read_len: u32,
}

impl BusRequest {
    /// Whether anything is written: an empty write is left out.
    pub fn writes(&self) -> (writes: bool)
        ensures
            writes == (self.write@.len() > 0),
    {
        self.write.len() > 0
    }

    /// Whether anything is read: a read of no bytes is left out.
    pub fn reads(&self) -> (reads: bool)
        ensures
            reads == (self.read_len > 0),
    {
        self.read_len > 0
    }
}

/// Reads a plugin's request for a transfer. The request stands when the
/// text to write is hexadecimal; otherwise the plugin gets the failure back
/// as a value.
pub fn i2c_request(addr: u8, write_data_hex: &str, read_len: u32) -> (request: Result<
    BusRequest,
    HostError,
>)
    ensures
        request is Ok <==> is_hex(write_data_hex.spec_bytes()),
        request matches Ok(r) ==> {
            &&& r.address == addr
            &&& r.write@ == bytes_of_hex(write_data_hex.spec_bytes())
            &&& r.read_len == read_len
        },
        request matches Err(failure) ==> failure is Capability,
{
    match hex_decode(write_data_hex) {
        Ok(write) => Ok(BusRequest { address: addr as u16, write, read_len }),
        Err(failure) => Err(HostError::Capability(hex_error_text(&failure))),
    }
}

/// The answer to a plugin's request, from what the bus gave: the bytes read
/// as hexadecimal text, or the failure as a value.
pub fn i2c_response(outcome: Result<Vec<u8>, String>) -> (response: Result<String, HostError>)
    ensures
        match outcome {
            Ok(bytes) => response matches Ok(text) && text@ == hex_of_bytes(bytes@),
            Err(words) => response == Err::<String, HostError>(HostError::Capability(words)),
        },
{
    match outcome {
        Ok(bytes) => Ok(hex_encode(&bytes)),
        Err(words) => Err(HostError::Capability(words)),
    }
}

/// The text that the host answers with is hexadecimal, and stands for the
/// bytes that were read: a plugin that reads its answer back as a request
/// gets the same bytes.
pub proof fn lemma_answer_reads_back(bytes: Seq<u8>)
    ensures
        is_hex(hex_of_bytes(bytes).map_values(|c: char| c as u8)),
        bytes_of_hex(hex_of_bytes(bytes).map_values(|c: char| c as u8)) =~= bytes,
{
    let text = hex_of_bytes(bytes).map_values(|c: char| c as u8);
    assert forall|i: int| 0 <= i < text.len() implies (#[trigger] nibble_of(text[i])) is Some by {
        lemma_digit_round_trip(bytes[i / 2] as int / 16);
        lemma_digit_round_trip(bytes[i / 2] as int % 16);
    }
    assert forall|k: int| 0 <= k < bytes.len() implies bytes_of_hex(text)[k] == bytes[k] by {
        lemma_digit_round_trip(bytes[k] as int / 16);
        lemma_digit_round_trip(bytes[k] as int % 16);
        assert((2 * k) / 2 == k);
        assert((2 * k + 1) / 2 == k);
        assert((2 * k) % 2 == 0);
        assert((2 * k + 1) % 2 == 1);
    }
}

/// A digit's value is the value it was written for.
proof fn lemma_digit_round_trip(nibble: int)
    requires
        0 <= nibble < 16,
    ensures
        nibble_of(digit_of(nibble) as u8) == Some(nibble as u8),
{
    if nibble < 10 {
        let b = (0x30 + nibble) as u8;
        assert((b as char) as u8 == b);
    } else {
        let b = (0x61 + nibble - 10) as u8;
        assert((b as char) as u8 == b);
    }
}

/// The address that stands where the configured text gives none.
pub const DEFAULT_ADDRESS: u8 = 0x77;

/// The number that `text` writes in `radix`, where a byte holds it.
pub open spec fn byte_of(text: Seq<char>, radix: u32) -> Option<u8> {
    match unsigned_of(text, radix) {
        Some(n) => if n <= u8::MAX {
            Some(n as u8)
        } else {
            None
        },
        None => None,
    }
}

/// The bus address that configured text stands for: hexadecimal after
/// `0x`, decimal otherwise, and the default where the text writes no byte.
pub open spec fn address_of(text: Seq<char>) -> u8 {
    let written = if occurs_at("0x"@, text, 0) {
        byte_of(text.skip(2), 16)
    } else {
        byte_of(text, 10)
    };
    match written {
        Some(address) => address,
        None => DEFAULT_ADDRESS,
    }
}

/// Reads a bus address from configured text.
pub fn parse_i2c_address(text: &str) -> (address: u8)
    ensures
        address == address_of(text@),
{
    proof {
        reveal_strlit("0x");
    }
    let written = if starts_with(text, "0x") {
        let count: usize = text.unicode_len();
        let digits = text.substring_char(2, count);
        assert(digits@ =~= text@.skip(2));
        parse_u8(digits, 16)
    } else {
        parse_u8(text, 10)
    };
    match written {
        Some(address) => address,
        None => DEFAULT_ADDRESS,
    }
}

} // verus!
