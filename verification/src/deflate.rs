use vstd::prelude::*;

verus! {

/// The byte sequence that decoding `bytes` as a raw DEFLATE stream (RFC 1951,
/// with no zlib or gzip framing) yields, or `None` when the stream is
/// malformed or truncated. Decoding is a function of the input bytes alone.
pub uninterp spec fn spec_inflate(bytes: Seq<u8>) -> Option<Seq<u8>>;

/// Relies on `flate2::read::DeflateDecoder` driven by `Read::read_to_end`:
/// it decodes `bytes` as a raw DEFLATE stream, a function of the input bytes
/// alone, and fails exactly when the stream is malformed or truncated.
#[verifier::external_body]
pub(crate) fn inflate(bytes: &[u8]) -> (r: Option<Vec<u8>>)
    ensures
        r is Some <==> spec_inflate(bytes@) is Some,
        r matches Some(out) ==> Some(out@) == spec_inflate(bytes@),
{
    let mut decoder = flate2::read::DeflateDecoder::new(bytes);
    let mut decompressed: Vec<u8> = Vec::new();
    match std::io::Read::read_to_end(&mut decoder, &mut decompressed) {
        Ok(_) => Some(decompressed),
        Err(_) => None,
    }
}

} // verus!
