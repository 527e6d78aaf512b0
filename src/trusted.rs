//! Calls into std and outside crates whose results the library relies on.

use vstd::prelude::*;
use std::io::{Read, Write};
use vstd::utf8::{valid_utf8, decode_utf8};

verus! {

/// Seconds since the Unix epoch of the instant that an RFC 3339 timestamp
/// names, or `None` where the text is not such a timestamp.
pub uninterp spec fn rfc3339_seconds(s: Seq<char>) -> Option<i64>;

/// The sixteen bytes of a GUID stored little-endian, in RFC 4122 order: the
/// first three groups (of 4, 2 and 2 bytes) reversed, the last eight kept.
pub open spec fn guid_from_le_order(b: Seq<u8>) -> Seq<u8> {
    seq![b[3], b[2], b[1], b[0], b[5], b[4], b[7], b[6]] + b.subrange(8, 16)
}

/// Relies on `String::from_utf8`: succeeds exactly on valid UTF-8, and the
/// string then holds the characters that the bytes encode.
#[verifier::external_body]
pub(crate) fn utf8_string(bytes: Vec<u8>) -> (r: Option<String>)
    ensures
        r is Some <==> valid_utf8(bytes@),
        r is Some ==> r->Some_0@ == decode_utf8(bytes@),
{
    String::from_utf8(bytes).ok()
}

/// Relies on chrono's `DateTime::parse_from_rfc3339` and `DateTime::timestamp`:
/// the parsed instant, as whole seconds since the Unix epoch.
#[verifier::external_body]
pub(crate) fn parse_rfc3339_seconds(s: &str) -> (r: Option<i64>)
    ensures
        r == rfc3339_seconds(s@),
{
    match chrono::DateTime::parse_from_rfc3339(s) {
        Ok(t) => Some(t.timestamp()),
        Err(_) => None,
    }
}

/// Relies on uuid's `Uuid::from_bytes_le` and `Uuid::into_bytes`: the first
/// three fields are byte-swapped, the rest copied.
#[verifier::external_body]
pub(crate) fn guid_from_bytes_le(b: [u8; 16]) -> (r: [u8; 16])
    ensures
        r@ == guid_from_le_order(b@),
{
    uuid::Uuid::from_bytes_le(b).into_bytes()
}

/// What the gzip stream `comp` inflates to (its first member, in full), or
/// `None` where the stream is malformed or cut short.
pub uninterp spec fn gunzipped(comp: Seq<u8>) -> Option<Seq<u8>>;

/// The gzip stream that default-level compression makes of `data`, or `None`
/// where compression fails.
pub uninterp spec fn gzipped(data: Seq<u8>) -> Option<Seq<u8>>;

/// Relies on flate2's `bufread::GzDecoder` and `Read::read_to_end`: the
/// whole inflated stream, or a failure on a malformed or truncated one.
#[verifier::external_body]
pub(crate) fn gunzip(comp: &[u8]) -> (r: Option<Vec<u8>>)
    ensures
        r is Some <==> gunzipped(comp@) is Some,
        r is Some ==> r->Some_0@ == gunzipped(comp@)->Some_0,
{
    let mut out = Vec::new();
    let mut decoder = flate2::bufread::GzDecoder::new(comp);
    match decoder.read_to_end(&mut out) {
        Ok(_) => Some(out),
        Err(_) => None,
    }
}

/// Relies on flate2's `write::GzEncoder` at `Compression::default()`, whose
/// header carries no time stamp: the stream depends on the data alone, and
/// `GzDecoder` inflates it back to the data.
#[verifier::external_body]
pub(crate) fn gzip(data: &[u8]) -> (r: Option<Vec<u8>>)
    ensures
        r is Some <==> gzipped(data@) is Some,
        r is Some ==> r->Some_0@ == gzipped(data@)->Some_0,
        r is Some ==> gunzipped(r->Some_0@) == Some(data@),
{
    let mut encoder = flate2::write::GzEncoder::new(Vec::new(), flate2::Compression::default());
    match encoder.write_all(data) {
        Ok(()) => encoder.finish().ok(),
        Err(_) => None,
    }
}

} // verus!
