use vstd::prelude::*;

use hmac::Mac;

verus! {

/// The HMAC-SHA256 tag for a given key and message, a function of the two
/// strings alone.
pub uninterp spec fn hmac_sha256_of(key: Seq<char>, msg: Seq<char>) -> Seq<u8>;

/// Relies on hmac's `Hmac::<Sha256>`: the tag depends on the key and message
/// alone and is 32 bytes long; `new_from_slice` accepts a key of any length.
#[verifier::external_body]
pub(crate) fn hmac_sha256(key: &str, msg: &str) -> (r: Vec<u8>)
    ensures
        r@ == hmac_sha256_of(key@, msg@),
        r@.len() == 32,
{
    let mut mac = <hmac::Hmac<sha2::Sha256>>::new_from_slice(key.as_bytes()).expect(
        "HMAC accepts a key of any length",
    );
    mac.update(msg.as_bytes());
    mac.finalize().into_bytes().to_vec()
}

/// The standard base64 encoding, with padding, of a byte string — a function
/// of the bytes alone.
pub uninterp spec fn base64_std_of(bytes: Seq<u8>) -> Seq<char>;

/// Relies on base64's `general_purpose::STANDARD.encode`: the encoding
/// depends on the bytes alone, four characters for every started three-byte
/// block.  The length bound keeps the encoded size within `usize`, where
/// `encode` would panic.
#[verifier::external_body]
pub(crate) fn base64_encode(data: &Vec<u8>) -> (r: String)
    requires
        data@.len() <= 0x3000000000000000,
    ensures
        r@ == base64_std_of(data@),
        r@.len() == 4 * ((data@.len() + 2) / 3),
{
    base64::Engine::encode(&base64::engine::general_purpose::STANDARD, data.as_slice())
}

} // verus!
