//! Gzip compression of a persisted container.

use std::io::{Read, Write};
use vstd::prelude::*;

verus! {

/// The gzip stream that the encoder writes for `data`.
pub uninterp spec fn gzip_of(data: Seq<u8>) -> Seq<u8>;

/// What the decoder reads out of `data`; `None` where it is no valid stream.
pub uninterp spec fn gunzip_of(data: Seq<u8>) -> Option<Seq<u8>>;

/// Relies on flate2::write::GzEncoder at the default level and with the
/// default header: the stream depends on the input alone, starts with the
/// ten-byte gzip header whose first two bytes are 1f 8b, and the decoder
/// reads the input back out of it.
#[verifier::external_body]
pub(crate) fn gzip(data: &Vec<u8>) -> (r: Option<Vec<u8>>)
    ensures
        r matches Some(z) ==> z@ == gzip_of(data@) && z@.len() >= 10 && z@[0] == 0x1f
            && z@[1] == 0x8b && gunzip_of(z@) == Some(data@),
{
    let mut enc = flate2::write::GzEncoder::new(Vec::new(), flate2::Compression::default());
    enc.write_all(data).ok()?;
    enc.finish().ok()
}

/// Relies on flate2::bufread::GzDecoder: it reads one gzip stream and yields
/// the bytes it holds, or fails; the outcome depends on the input alone.
#[verifier::external_body]
pub(crate) fn gunzip(data: &Vec<u8>) -> (r: Option<Vec<u8>>)
    ensures
        r matches Some(v) ==> gunzip_of(data@) == Some(v@),
        r is None ==> gunzip_of(data@) is None,
{
    let mut out: Vec<u8> = Vec::new();
    flate2::bufread::GzDecoder::new(data.as_slice()).read_to_end(&mut out).ok()?;
    Some(out)
}

} // verus!
