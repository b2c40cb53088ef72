//! The compressor: a lossless, high-ratio compression of the encoded block
//! envelope, tuned for on-chain storage cost, together with its inverse.

use vstd::prelude::*;

verus! {

/// The byte stream the compressor produces for the given input bytes.  With
/// the quality and window fixed below, the output is a function of the input
/// alone.
pub uninterp spec fn brotli_of(input: Seq<u8>) -> Seq<u8>;

/// Relies on brotli::CompressorWriter (buffer 4096, quality 11, window 22):
/// writing the whole input into a fresh in-memory writer and closing it
/// yields the brotli encoding of the input, a function of the input bytes
/// alone.  Writing into a Vec cannot fail.
#[verifier::external_body]
fn brotli_compress_raw(input: &[u8]) -> (r: Vec<u8>)
    ensures
        r@ == brotli_of(input@),
{
    let mut writer = brotli::CompressorWriter::new(Vec::new(), 4096, 11, 22);
    let _ = std::io::Write::write_all(&mut writer, input);
    writer.into_inner()
}

/// Relies on brotli::Decompressor (buffer 4096): brotli is lossless, so a
/// stream the compressor produced reads back as exactly the bytes that went
/// in; on any other input, whatever comes back (or an error) is not trusted
/// further.
#[verifier::external_body]
fn brotli_decompress_raw(input: &[u8]) -> (r: Option<Vec<u8>>)
    ensures
        r matches Some(o) ==> (forall|x: Seq<u8>| input@ == brotli_of(x) ==> o@ == x),
        r is None ==> (forall|x: Seq<u8>| input@ != brotli_of(x)),
{
    let mut out: Vec<u8> = Vec::new();
    let mut decompressor = brotli::Decompressor::new(input, 4096);
    match std::io::Read::read_to_end(&mut decompressor, &mut out) {
        Ok(_) => Some(out),
        Err(_) => None,
    }
}

/// Compresses a byte sequence for cost-efficient on-chain storage.
pub fn brotli_compress(input: &[u8]) -> (r: Vec<u8>)
    ensures
        r@ == brotli_of(input@),
{
    brotli_compress_raw(input)
}

/// Decompresses a stream, returning nothing when the stream is corrupt.  A
/// stream the compressor produced always decompresses, back to exactly the
/// bytes that were compressed.
pub fn try_brotli_decompress(input: &[u8]) -> (r: Option<Vec<u8>>)
    ensures
        r matches Some(o) ==> (forall|x: Seq<u8>| input@ == brotli_of(x) ==> o@ == x),
        r is None ==> (forall|x: Seq<u8>| input@ != brotli_of(x)),
{
    brotli_decompress_raw(input)
}

/// Decompresses a stream known to come from the compressor, back to exactly
/// the bytes that were compressed.
pub fn brotli_decompress(input: Vec<u8>) -> (r: Vec<u8>)
    requires
        exists|x: Seq<u8>| input@ == brotli_of(x),
    ensures
        forall|x: Seq<u8>| input@ == brotli_of(x) ==> r@ == x,
{
    match try_brotli_decompress(input.as_slice()) {
        Option::Some(o) => o,
        Option::None => vstd::pervasive::unreached(),
    }
}

/// Law: decompression inverts compression; for every byte sequence, the
/// empty one included, compressing and then decompressing returns exactly
/// the input.
pub fn compress_round_trip(input: &[u8]) -> (r: Vec<u8>)
    ensures
        r@ == input@,
{
    let compressed = brotli_compress(input);
    proof {
        assert(compressed@ == brotli_of(input@));
    }
    brotli_decompress(compressed)
}

} // verus!
