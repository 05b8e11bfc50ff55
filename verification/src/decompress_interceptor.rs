//! Decoding of payloads that start with a one-byte codec tag.

use vstd::prelude::*;
use vstd::slice::slice_to_vec;
use vstd::string::to_string_from_display_ensures;
use crate::outside::{lz4_decompress_size_prepended, lz4_decompressed, lz4_input_admitted, ff_run_before, ff_runs_bounded, LZ4_MAX_FF_RUN};
use lz4_flex::block::DecompressError;

verus! {

/// Tag of a payload that is carried as is.
pub const RAW_TAG: u8 = 0u8;

/// Tag of a payload compressed as an LZ4 block with its size prepended.
pub const LZ4_TAG: u8 = 1u8;

/// Why a payload could not be decoded.
#[derive(Debug)]
pub enum DecodeError {
    /// The payload has no tag byte.
    EmptyPayload,
    /// The tag byte names no known codec.
    UnknownCodecTag(u8),
    /// The LZ4 block could not be decompressed.
    Decompress(DecompressError),
}

/// The lower-case hexadecimal digit of `n`, for `n` below 16.
pub open spec fn hex_digit(n: int) -> char {
    if n == 0 { '0' } else if n == 1 { '1' } else if n == 2 { '2' } else if n == 3 { '3' }
    else if n == 4 { '4' } else if n == 5 { '5' } else if n == 6 { '6' } else if n == 7 { '7' }
    else if n == 8 { '8' } else if n == 9 { '9' } else if n == 10 { 'a' } else if n == 11 { 'b' }
    else if n == 12 { 'c' } else if n == 13 { 'd' } else if n == 14 { 'e' } else { 'f' }
}

/// A byte as two lower-case hexadecimal digits.
pub open spec fn hex_byte(b: u8) -> Seq<char> {
    seq![hex_digit(b as int / 16), hex_digit(b as int % 16)]
}

fn hex_digit_str(n: u8) -> (s: &'static str)
    requires
        n < 16,
    ensures
        s@ == seq![hex_digit(n as int)],
{
    proof {
        reveal_strlit("0"); reveal_strlit("1"); reveal_strlit("2"); reveal_strlit("3");
        reveal_strlit("4"); reveal_strlit("5"); reveal_strlit("6"); reveal_strlit("7");
        reveal_strlit("8"); reveal_strlit("9"); reveal_strlit("a"); reveal_strlit("b");
        reveal_strlit("c"); reveal_strlit("d"); reveal_strlit("e"); reveal_strlit("f");
    }
    match n {
        0 => "0", 1 => "1", 2 => "2", 3 => "3", 4 => "4", 5 => "5", 6 => "6", 7 => "7",
        8 => "8", 9 => "9", 10 => "a", 11 => "b", 12 => "c", 13 => "d", 14 => "e", _ => "f",
    }
}

/// Writes a byte as two lower-case hexadecimal digits, as `{:02x}` does.
pub fn format_hex_byte(b: u8) -> (s: String)
    ensures
        s@ == hex_byte(b),
{
    let mut s = String::new();
    s.append(hex_digit_str(b / 16));
    s.append(hex_digit_str(b % 16));
    s
}

impl DecodeError {
    /// The text that describes the error.
    pub fn message(&self) -> (s: String)
        ensures
            match self {
                DecodeError::EmptyPayload => s@ == "empty payload"@,
                DecodeError::UnknownCodecTag(t) => s@ == "unknown codec tag: 0x"@ + hex_byte(*t),
                DecodeError::Decompress(e) => to_string_from_display_ensures::<DecompressError>(e, s),
            },
    {
        match self {
            DecodeError::EmptyPayload => String::from_str("empty payload"),
            DecodeError::UnknownCodecTag(t) => {
                let mut s = String::from_str("unknown codec tag: 0x");
                let h = format_hex_byte(*t);
                s.append(h.as_str());
                s
            },
            DecodeError::Decompress(e) => e.to_string(),
        }
    }
}

impl From<DecompressError> for DecodeError {
    fn from(e: DecompressError) -> (r: Self)
        ensures
            r == DecodeError::Decompress(e),
    {
        DecodeError::Decompress(e)
    }
}

impl vstd::std_specs::convert::FromSpecImpl<DecompressError> for DecodeError {
    open spec fn obeys_from_spec() -> bool {
        true
    }

    open spec fn from_spec(e: DecompressError) -> Self {
        DecodeError::Decompress(e)
    }
}

/// Whether `decode` takes `data`: a payload with the LZ4 tag must hold an
/// input that lz4_flex decodes without a panic; every other payload is taken.
pub open spec fn decode_admitted(data: Seq<u8>) -> bool {
    data.len() > 0 && data[0] == LZ4_TAG ==> lz4_input_admitted(data.drop_first())
}

/// Which payloads `decode` takes: every payload that is empty or carries a
/// tag other than LZ4, and every LZ4-tagged payload whose body has no run of
/// more than `LZ4_MAX_FF_RUN` bytes `0xFF` and announces (in its first four
/// bytes, little endian) a size of at most `isize::MAX` -- whatever that size
/// is next to the length of the body, that is however well it compresses.
pub proof fn lemma_decode_admission(data: Seq<u8>)
    ensures
        decode_admitted(data) <==> (data.len() == 0 || data[0] != LZ4_TAG || (
            (forall|end: int| 0 <= end <= data.len() - 1 ==>
                #[trigger] ff_run_before(data.drop_first(), end) <= LZ4_MAX_FF_RUN)
            && (data.len() >= 5 ==> data[1] as int + 256 * (data[2] as int)
                + 65536 * (data[3] as int) + 16777216 * (data[4] as int) <= isize::MAX))),
{
    if data.len() > 0 {
        let body = data.drop_first();
        assert(body.len() == data.len() - 1);
        if body.len() >= 4 {
            assert(body[0] == data[1] && body[1] == data[2] && body[2] == data[3] && body[3] == data[4]);
        }
    }
}

/// Whether no run of `0xFF` bytes in `input` is longer than `LZ4_MAX_FF_RUN`.
pub fn ff_runs_ok(input: &[u8]) -> (r: bool)
    ensures
        r == ff_runs_bounded(input@),
{
    let mut run: usize = 0;
    let mut i: usize = 0;
    while i < input.len()
        invariant
            i <= input@.len(),
            run == ff_run_before(input@, i as int),
            forall|end: int| 0 <= end <= i ==> #[trigger] ff_run_before(input@, end) <= LZ4_MAX_FF_RUN,
        decreases input@.len() - i,
    {
        if input[i] == 0xFF {
            run = run + 1;
            assert(ff_run_before(input@, i + 1) == run);
            if run > LZ4_MAX_FF_RUN {
                assert(!ff_runs_bounded(input@));
                return false;
            }
        } else {
            run = 0;
            assert(ff_run_before(input@, i + 1) == 0);
        }
        i = i + 1;
    }
    true
}

/// Whether lz4_flex decodes `input` without a panic (`lz4_input_admitted`).
pub fn lz4_input_ok(input: &[u8]) -> (r: bool)
    ensures
        r == lz4_input_admitted(input@),
{
    if !ff_runs_ok(input) {
        return false;
    }
    if input.len() < 4 {
        return true;
    }
    let size: u64 = input[0] as u64 + 256 * (input[1] as u64) + 65536 * (input[2] as u64)
        + 16777216 * (input[3] as u64);
    size <= isize::MAX as u64
}

/// Interceptor that strips the codec tag from a payload and decodes the rest:
/// tag `0x00` passes the rest through, tag `0x01` decompresses it as LZ4.
#[derive(Debug, Clone, Copy)]
pub struct DecompressInterceptor;

impl DecompressInterceptor {
    pub fn new() -> (r: Self)
        ensures
            r == DecompressInterceptor,
    {
        DecompressInterceptor
    }

    /// Decompresses an LZ4 block whose first four bytes give its size.
    pub fn decompress(&self, data: &[u8]) -> (r: Result<Vec<u8>, DecompressError>)
        requires
            lz4_input_admitted(data@),
        ensures
            r is Ok <==> lz4_decompressed(data@) is Some,
            r matches Ok(v) ==> lz4_decompressed(data@) == Some(v@),
            data@.len() < 4 ==> r is Err,
    {
        lz4_decompress_size_prepended(data)
    }

    /// Whether `decode` takes `data` (`decode_admitted`).
    pub fn admits(&self, data: &[u8]) -> (r: bool)
        ensures
            r == decode_admitted(data@),
    {
        if data.len() > 0 && data[0] == LZ4_TAG {
            let (_, payload) = data.split_at(1);
            assert(payload@ == data@.drop_first());
            lz4_input_ok(payload)
        } else {
            true
        }
    }

    /// Decodes a tagged payload.
    pub fn decode(&self, data: &[u8]) -> (r: Result<Vec<u8>, DecodeError>)
        requires
            decode_admitted(data@),
        ensures
            data@.len() == 0 ==> r matches Err(DecodeError::EmptyPayload),
            data@.len() > 0 && data@[0] == RAW_TAG ==> (r matches Ok(v) && v@ == data@.drop_first()),
            data@.len() > 0 && data@[0] == LZ4_TAG ==> match lz4_decompressed(data@.drop_first()) {
                Some(v) => (r matches Ok(out) && out@ == v),
                None => r matches Err(DecodeError::Decompress(_)),
            },
            data@.len() > 0 && data@[0] > LZ4_TAG ==> (r matches Err(DecodeError::UnknownCodecTag(t))
                && t == data@[0]),
    {
        if data.len() == 0 {
            return Err(DecodeError::EmptyPayload);
        }
        let (head, payload) = data.split_at(1);
        let tag = head[0];
        assert(payload@ == data@.drop_first());
        if tag == RAW_TAG {
            Ok(slice_to_vec(payload))
        } else if tag == LZ4_TAG {
            match self.decompress(payload) {
                Ok(v) => Ok(v),
                Err(e) => Err(DecodeError::from(e)),
            }
        } else {
            Err(DecodeError::UnknownCodecTag(tag))
        }
    }
}

impl Default for DecompressInterceptor {
    fn default() -> (r: Self)
        ensures
            r == DecompressInterceptor,
    {
        DecompressInterceptor::new()
    }
}

} // verus!
