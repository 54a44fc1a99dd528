//! The WebSocket accept key.
//!
//! To accept an upgrade, a server echoes back a digest of the client's
//! `Sec-WebSocket-Key`: the key with the fixed handshake GUID appended,
//! hashed with SHA-1, and encoded as base64.

use vstd::prelude::*;

use base64::Engine;
use sha1::Digest;
use vstd::string::StrSliceExecFns;
use vstd::string::StringSliceAdditionalSpecFns;

verus! {

/// The SHA-1 digest of a byte sequence: a function of the input alone,
/// named rather than spelled out.
pub uninterp spec fn sha1_of(input: Seq<u8>) -> Seq<u8>;

/// The standard base64 encoding (with padding) of a byte sequence: a
/// function of the input alone, named rather than spelled out.
pub uninterp spec fn base64_of(input: Seq<u8>) -> Seq<char>;

/// The fixed GUID that the WebSocket handshake appends to the client's
/// key, as its ASCII bytes.
pub open spec fn handshake_guid_bytes() -> Seq<u8> {
    "258EAFA5-E914-47DA-95CA-C5AB0DC85B11".spec_bytes()
}

/// Relies on `sha1::Sha1` through the `Digest` trait: the digest is 20
/// bytes and depends on the input bytes alone.
#[verifier::external_body]
fn sha1_digest(input: &Vec<u8>) -> (r: Vec<u8>)
    ensures
        r@ == sha1_of(input@),
        r@.len() == 20,
{
    sha1::Sha1::digest(input.as_slice()).to_vec()
}

/// Relies on `base64::Engine::encode` with the standard engine: the
/// standard alphabet with padding, a function of the input bytes
/// alone, four output characters for every started group of three
/// input bytes.
#[verifier::external_body]
pub(crate) fn base64_encode(input: &Vec<u8>) -> (r: String)
    ensures
        r@ == base64_of(input@),
        r@.len() == 4 * ((input@.len() + 2) / 3),
{
    base64::engine::general_purpose::STANDARD.encode(input.as_slice())
}

/// Convert a client's `Sec-WebSocket-Key` into the `Sec-WebSocket-Accept`
/// value: base64 of the SHA-1 digest of the key with the handshake GUID
/// appended.
pub fn convert_key(key: &str) -> (r: String)
    ensures
        r@ == base64_of(sha1_of(key.spec_bytes() + handshake_guid_bytes())),
{
    let mut data: Vec<u8> = key.as_bytes_vec();
    let mut guid: Vec<u8> = "258EAFA5-E914-47DA-95CA-C5AB0DC85B11".as_bytes_vec();
    data.append(&mut guid);
    let digest = sha1_digest(&data);
    base64_encode(&digest)
}

} // verus!
