//! Declarations of the outside types that the library carries through, and
//! the few calls into outside crates that it makes.

use vstd::prelude::*;

verus! {

/// `anyhow::Error`, the error type that handlers and interceptors report.
/// Verus sees nothing inside a value of it: the library only passes it on.
#[verifier::external_type_specification]
#[verifier::external_body]
pub struct ExAnyhowError(anyhow::Error);

/// `lz4_flex::block::DecompressError`, the reason lz4_flex gives for refusing
/// a compressed block.
#[verifier::external_type_specification]
#[verifier::external_body]
pub struct ExDecompressError(lz4_flex::block::DecompressError);

/// What `lz4_flex::block::decompress_size_prepended` makes of the given bytes:
/// `Some` of the decompressed bytes, or `None` where it refuses them. It is a
/// function of the bytes alone.
pub uninterp spec fn lz4_decompressed(input: Seq<u8>) -> Option<Seq<u8>>;

/// The longest run of consecutive `0xFF` bytes in an input handed to
/// `lz4_flex::block::decompress_size_prepended`.
///
/// Its decoder reads a length field as a run of `0xFF` bytes closed by one
/// other byte, and adds them up in a `u32` without a check; on a 32-bit target
/// it adds a match length so read to an output position (at most `isize::MAX`)
/// held in a `usize`. Both overflow (and panic where overflow checks are on)
/// only on runs of more than about 8.4 million `0xFF` bytes. With runs of at
/// most this length, `255 * run + 254` fits a `u32`, and `19 + 255 * run + 254
/// + isize::MAX` fits a 32-bit `usize`.
pub const LZ4_MAX_FF_RUN: usize = 8_421_000usize;

/// The number of consecutive `0xFF` bytes that end just before position `end`.
pub open spec fn ff_run_before(input: Seq<u8>, end: int) -> nat
    decreases end,
{
    if end <= 0 || end > input.len() {
        0
    } else if input[end - 1] == 0xFF {
        ff_run_before(input, end - 1) + 1
    } else {
        0
    }
}

/// Whether no run of consecutive `0xFF` bytes in `input` is longer than
/// `LZ4_MAX_FF_RUN`.
pub open spec fn ff_runs_bounded(input: Seq<u8>) -> bool {
    forall|end: int| 0 <= end <= input.len() ==> #[trigger] ff_run_before(input, end) <= LZ4_MAX_FF_RUN
}

/// The uncompressed size that the first four bytes of an LZ4 input announce
/// (little endian).
pub open spec fn lz4_size_prefix(input: Seq<u8>) -> int {
    input[0] as int + 256 * (input[1] as int) + 65536 * (input[2] as int)
        + 16777216 * (input[3] as int)
}

/// Whether lz4_flex decodes `input` without a panic: no run of `0xFF` bytes
/// in it is longer than `LZ4_MAX_FF_RUN`, and the size it announces fits a
/// `Vec` (`vec![0; size]` panics above `isize::MAX`, which a `u32` can pass
/// only on a 32-bit target).
pub open spec fn lz4_input_admitted(input: Seq<u8>) -> bool {
    &&& ff_runs_bounded(input)
    &&& input.len() >= 4 ==> lz4_size_prefix(input) <= isize::MAX
}

/// Calls `lz4_flex::block::decompress_size_prepended`, which reads the
/// uncompressed size from the first four bytes (little endian) and decompresses
/// the LZ4 block that follows. Claimed: it succeeds exactly when
/// `lz4_decompressed` is `Some`, and then gives those bytes; with fewer than
/// four bytes it fails (it cannot read the size). Inputs on which its
/// arithmetic could overflow are left out (see `lz4_input_admitted`).
#[verifier::external_body]
pub(crate) fn lz4_decompress_size_prepended(input: &[u8]) -> (r: Result<Vec<u8>, lz4_flex::block::DecompressError>)
    requires
        lz4_input_admitted(input@),
    ensures
        r is Ok <==> lz4_decompressed(input@) is Some,
        r matches Ok(v) ==> lz4_decompressed(input@) == Some(v@),
        input@.len() < 4 ==> r is Err,
{
    lz4_flex::block::decompress_size_prepended(input)
}

} // verus!
