//! The compute core of one archiving attempt: encode a fetched block's raw
//! JSON into the calldata submitted to the archival chain, and the inverse
//! used when an archived block is read back.  Fetching, submission and
//! progress recording are I/O and live with the caller; the coordinator
//! decides which height this step runs for.

use vstd::prelude::*;
use crate::block_type::{Block, spec_envelope, envelope_fits, lemma_envelope_injective};
use crate::compress::brotli_of;
use crate::coordinator::ArchiveError;

verus! {

/// The calldata the pipeline submits for a block: its raw JSON wrapped in
/// the envelope, then compressed.
pub open spec fn spec_calldata(block_json: Seq<char>) -> Seq<u8> {
    brotli_of(spec_envelope(block_json))
}

/// Encodes and compresses one block's raw JSON into the calldata to submit.
/// Fails only on a payload too large for the envelope's length prefix.
pub fn build_calldata(block_json: String) -> (r: Result<Vec<u8>, ArchiveError>)
    ensures
        (r is Ok) == envelope_fits(block_json@),
        r matches Ok(c) ==> c@ == spec_calldata(block_json@),
        r matches Err(e) ==> e == ArchiveError::PayloadTooLarge,
{
    if !((block_json.as_str().as_bytes().len() as u64) < 0x1_0000_0000u64) {
        return Err(ArchiveError::PayloadTooLarge);
    }
    let block = Block::new(block_json);
    let encoded = Block::borsh_ser(&block);
    let compressed = Block::brotli_compress(encoded.as_slice());
    Ok(compressed)
}

/// Undoes the pipeline for one archived block: decompress the calldata and
/// open the envelope, returning the raw JSON that was archived.
pub fn decode_calldata(calldata: Vec<u8>) -> (r: Option<String>)
    ensures
        forall|j: Seq<char>|
            calldata@ == spec_calldata(j) && envelope_fits(j)
                ==> (r matches Some(s) && s@ == j),
{
    let decompressed: Vec<u8> = match crate::compress::try_brotli_decompress(
        calldata.as_slice(),
    ) {
        Option::Some(d) => d,
        Option::None => {
            return Option::None;
        },
    };
    match Block::try_borsh_der(&decompressed) {
        Option::Some(b) => {
            proof {
                assert forall|j: Seq<char>|
                    calldata@ == spec_calldata(j) && envelope_fits(j) implies b@ == j by {
                    assert(decompressed@ == spec_envelope(j));
                    lemma_envelope_injective(b@, j);
                }
            }
            Option::Some(b.wvm_data)
        },
        Option::None => {
            proof {
                assert forall|j: Seq<char>|
                    calldata@ == spec_calldata(j) && envelope_fits(j) implies false by {
                    assert(decompressed@ == spec_envelope(j));
                }
            }
            Option::None
        },
    }
}

/// Law: the archive pipeline is reversible.  For every raw block JSON that
/// fits the envelope, encoding, compressing, decompressing and decoding give
/// back exactly the text that was archived — so the canonical block decoded
/// from the archive equals the one decoded from the source, field for field.
pub fn archive_round_trip(block_json: String) -> (r: Option<String>)
    ensures
        (r is Some) == envelope_fits(block_json@),
        r matches Some(s) ==> s@ == block_json@,
{
    let ghost j = block_json@;
    match build_calldata(block_json) {
        Ok(calldata) => {
            proof {
                assert(calldata@ == brotli_of(spec_envelope(j)));
            }
            let decompressed = Block::brotli_decompress(calldata);
            proof {
                assert(decompressed@ == spec_envelope(j));
            }
            let block = Block::borsh_der(decompressed);
            proof {
                lemma_envelope_injective(block@, j);
            }
            Some(block.wvm_data)
        },
        Err(_) => None,
    }
}

} // verus!
