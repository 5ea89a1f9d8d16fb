//! The signature that lets a client upload an image to the image host.

use crate::api::SignedSignature;
use crate::clock::unix_now;
use crate::hex::{encode_hex, hex_text};
use crate::text::{i64_text, signed_decimal_text};
use vstd::prelude::*;
use vstd::string::*;
use vstd::utf8::encode_utf8;

verus! {

/// The SHA-1 digest of a byte string.
pub uninterp spec fn sha1_of(data: Seq<u8>) -> Seq<u8>;

/// `Sha1::digest`: the digest of the data, twenty bytes.
#[verifier::external_body]
fn sha1_digest(data: &[u8]) -> (digest: Vec<u8>)
    ensures
        digest@ == sha1_of(data@),
        digest@.len() == 20,
{
    <sha1::Sha1 as sha1::Digest>::digest(data).to_vec()
}

/// The text that is signed: the upload parameters, followed by the secret.
pub open spec fn signed_params(timestamp: i64, secret: Seq<char>) -> Seq<char> {
    "folder=tinychat&timestamp="@ + signed_decimal_text(timestamp as int) + secret
}

/// The signature for an upload at `timestamp` under a secret: the
/// hexadecimal SHA-1 digest of the signed text in UTF-8.
pub open spec fn upload_signature(timestamp: i64, secret: Seq<char>) -> Seq<char> {
    hex_text(sha1_of(encode_utf8(signed_params(timestamp, secret))))
}

/// Writes the text that is signed.
pub fn upload_params(timestamp: i64, api_secret: &str) -> (params: String)
    ensures
        params@ == signed_params(timestamp, api_secret@),
{
    let mut params = "folder=tinychat&timestamp=".to_owned();
    params.append(i64_text(timestamp).as_str());
    params.append(api_secret);
    params
}

/// Signs an upload at `timestamp`.
pub fn sign_upload(timestamp: i64, api_key: String, api_secret: &str) -> (signed: SignedSignature)
    ensures
        signed.api_key == api_key,
        signed.timestamp == timestamp,
        signed.signature@ == upload_signature(timestamp, api_secret@),
        signed.signature@.len() == 40,
{
    let params = upload_params(timestamp, api_secret);
    let digest = sha1_digest(params.as_str().as_bytes());
    let signature = encode_hex(digest.as_slice());
    SignedSignature { signature, api_key, timestamp }
}

/// Signs an upload at the present second of the system clock.
pub fn get_signed_signature(api_key: String, api_secret: &str) -> (signed: SignedSignature)
    ensures
        signed.api_key == api_key,
        signed.signature@ == upload_signature(signed.timestamp, api_secret@),
        signed.signature@.len() == 40,
{
    sign_upload(unix_now(), api_key, api_secret)
}

} // verus!
