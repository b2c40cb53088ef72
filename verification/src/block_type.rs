//! The archive pipeline's payload type: one block's raw JSON held as an
//! opaque string, and its deterministic binary envelope.  The envelope is a
//! fixed, versionless layout — the string's UTF-8 bytes behind a four-byte
//! little-endian length prefix — so the archival chain stores reproducible
//! bytes for the same logical block.

use vstd::prelude::*;
use vstd::bytes::{spec_u32_to_le_bytes, u32_to_le_bytes, u32_from_le_bytes, lemma_auto_spec_u32_to_from_le_bytes};
use vstd::utf8::{encode_utf8, decode_utf8, valid_utf8, encode_utf8_valid_utf8, encode_utf8_decode_utf8, decode_utf8_encode_utf8};
use vstd::slice::slice_subrange;

verus! {

/// One block's payload on its way to the archival chain.
#[derive(Debug, PartialEq)]
pub struct Block {
    pub wvm_data: String,
}

impl View for Block {
    type V = Seq<char>;

    open spec fn view(&self) -> Seq<char> {
        self.wvm_data@
    }
}

/// The envelope laid around a payload string: the length of its UTF-8 bytes
/// as a four-byte little-endian prefix, then the bytes themselves.
pub open spec fn spec_envelope(data: Seq<char>) -> Seq<u8> {
    spec_u32_to_le_bytes(encode_utf8(data).len() as u32) + encode_utf8(data)
}

/// True when a payload fits the envelope's four-byte length prefix.
pub open spec fn envelope_fits(data: Seq<char>) -> bool {
    encode_utf8(data).len() < 0x1_0000_0000
}

impl Block {
    /// Wraps one block's raw JSON.
    pub fn new(wvm_data: String) -> (r: Block)
        ensures
            r@ == wvm_data@,
    {
        Block { wvm_data }
    }

    /// Serializes a block into its deterministic binary envelope.
    pub fn borsh_ser(input: &Block) -> (r: Vec<u8>)
        requires
            envelope_fits(input@),
        ensures
            r@ == spec_envelope(input@),
    {
        let bytes: &[u8] = input.wvm_data.as_str().as_bytes();
        let mut out: Vec<u8> = u32_to_le_bytes(bytes.len() as u32);
        out.extend_from_slice(bytes);
        proof {
            assert(out@ =~= spec_envelope(input@));
        }
        out
    }

    /// Opens an envelope, returning nothing unless the input is, byte for
    /// byte, the envelope of some payload.
    pub fn try_borsh_der(input: &Vec<u8>) -> (r: Option<Block>)
        ensures
            r matches Some(b) ==> input@ == spec_envelope(b@) && envelope_fits(b@),
            (r is Some) == (exists|s: Seq<char>|
                input@ == spec_envelope(s) && envelope_fits(s)),
    {
        proof {
            lemma_auto_spec_u32_to_from_le_bytes();
        }
        if input.len() < 4 {
            return Option::None;
        }
        let prefix: &[u8] = slice_subrange(input.as_slice(), 0, 4);
        let n: u32 = u32_from_le_bytes(prefix);
        let body_len: usize = input.len() - 4;
        if body_len as u64 != n as u64 {
            proof {
                assert forall|s: Seq<char>|
                    input@ == spec_envelope(s) && envelope_fits(s) implies false by {
                    assert(input@.subrange(0, 4) =~= spec_u32_to_le_bytes(
                        encode_utf8(s).len() as u32,
                    ));
                    assert(input@.len() - 4 == encode_utf8(s).len());
                }
            }
            return Option::None;
        }
        let body: Vec<u8> = vstd::slice::slice_to_vec(
            slice_subrange(input.as_slice(), 4, input.len()),
        );
        match string_from_utf8(body) {
            Option::Some(s) => {
                proof {
                    decode_utf8_encode_utf8(body@);
                    assert(input@ =~= spec_envelope(s@));
                }
                Option::Some(Block { wvm_data: s })
            },
            Option::None => {
                proof {
                    assert forall|s: Seq<char>|
                        input@ == spec_envelope(s) && envelope_fits(s) implies false by {
                        assert(input@.subrange(4, input@.len() as int) =~= encode_utf8(s));
                        encode_utf8_valid_utf8(s);
                    }
                }
                Option::None
            },
        }
    }

    /// Opens an envelope known to be well formed, as the archive read path
    /// does after decompression.
    pub fn borsh_der(input: Vec<u8>) -> (r: Block)
        requires
            exists|s: Seq<char>| input@ == spec_envelope(s) && envelope_fits(s),
        ensures
            input@ == spec_envelope(r@),
            envelope_fits(r@),
    {
        match Block::try_borsh_der(&input) {
            Option::Some(b) => b,
            Option::None => vstd::pervasive::unreached(),
        }
    }

    /// Compresses an encoded envelope for on-chain storage.
    pub fn brotli_compress(input: &[u8]) -> (r: Vec<u8>)
        ensures
            r@ == crate::compress::brotli_of(input@),
    {
        crate::compress::brotli_compress(input)
    }

    /// Decompresses calldata known to carry a compressed envelope, back to
    /// exactly the bytes that were compressed.
    pub fn brotli_decompress(input: Vec<u8>) -> (r: Vec<u8>)
        requires
            exists|x: Seq<u8>| input@ == crate::compress::brotli_of(x),
        ensures
            forall|x: Seq<u8>| input@ == crate::compress::brotli_of(x) ==> r@ == x,
    {
        crate::compress::brotli_decompress(input)
    }
}

/// Two equal envelopes wrap one and the same payload.
pub proof fn lemma_envelope_injective(a: Seq<char>, b: Seq<char>)
    requires
        spec_envelope(a) == spec_envelope(b),
    ensures
        a == b,
{
    lemma_auto_spec_u32_to_from_le_bytes();
    assert(spec_u32_to_le_bytes(encode_utf8(a).len() as u32).len() == 4);
    assert(spec_u32_to_le_bytes(encode_utf8(b).len() as u32).len() == 4);
    assert(spec_envelope(a).len() == 4 + encode_utf8(a).len());
    assert(spec_envelope(b).len() == 4 + encode_utf8(b).len());
    assert(encode_utf8(a).len() == encode_utf8(b).len());
    assert(encode_utf8(a) =~= spec_envelope(a).subrange(4, spec_envelope(a).len() as int));
    assert(encode_utf8(b) =~= spec_envelope(b).subrange(4, spec_envelope(b).len() as int));
    encode_utf8_decode_utf8(a);
    encode_utf8_decode_utf8(b);
}

/// Law: opening the envelope of a block gives back that block, field for
/// field.
pub fn envelope_round_trip(input: &Block) -> (r: Block)
    requires
        envelope_fits(input@),
    ensures
        r@ == input@,
{
    let encoded = Block::borsh_ser(input);
    proof {
        assert(encoded@ == spec_envelope(input@) && envelope_fits(input@));
    }
    let decoded = Block::borsh_der(encoded);
    proof {
        lemma_envelope_injective(decoded@, input@);
    }
    decoded
}

/// Relies on String::from_utf8: it accepts exactly the valid UTF-8 byte
/// sequences, and decodes them to the characters they encode.
#[verifier::external_body]
fn string_from_utf8(bytes: Vec<u8>) -> (r: Option<String>)
    ensures
        (r is Some) == valid_utf8(bytes@),
        r matches Some(s) ==> s@ == decode_utf8(bytes@),
{
    String::from_utf8(bytes).ok()
}

} // verus!
