use vstd::prelude::*;

verus! {

/// The deflate stream that the compressor produces for the given bytes
/// at the given level; a pure function of both.
pub uninterp spec fn deflate_of(data: Seq<u8>, level: u8) -> Seq<u8>;

/// What the decompressor makes of a byte stream: the decompressed
/// bytes, or nothing for a stream it cannot decode.
pub uninterp spec fn inflate_of(data: Seq<u8>) -> Option<Seq<u8>>;

/// Relies on `miniz_oxide::deflate::compress_to_vec`: compresses the
/// input to a raw deflate stream at the given level.  Deflate is
/// lossless, so decompressing the result yields the input again.
#[verifier::external_body]
pub(crate) fn compress_bytes(data: &[u8], level: u8) -> (r: Vec<u8>)
    ensures
        r@ == deflate_of(data@, level),
        inflate_of(r@) == Some(data@),
{
    miniz_oxide::deflate::compress_to_vec(data, level)
}

/// Relies on `miniz_oxide::inflate::decompress_to_vec`: decompresses a
/// raw deflate stream, failing exactly on the streams it cannot decode.
#[verifier::external_body]
pub(crate) fn decompress_bytes(data: &[u8]) -> (r: Option<Vec<u8>>)
    ensures
        match r {
            Some(v) => inflate_of(data@) == Some(v@),
            None => inflate_of(data@) is None,
        },
{
    match miniz_oxide::inflate::decompress_to_vec(data) {
        Ok(v) => Some(v),
        Err(_) => None,
    }
}

} // verus!
