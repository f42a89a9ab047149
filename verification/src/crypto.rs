//! Trusted wrappers around the outside cryptographic and encoding
//! primitives.  Everything else in the crate reasons about these calls only
//! through the contracts stated here.

use vstd::prelude::*;

verus! {

/// Number of bytes in a signing key, an authentication tag and a content
/// hash.
pub const KEY_LEN: usize = 32;

/// The authentication tag that the keyed message-authentication primitive
/// produces for a key and a message.  The result depends on the two
/// arguments alone.
pub uninterp spec fn mac_of(key: Seq<u8>, msg: Seq<u8>) -> Seq<u8>;

/// The authentication tag as a 32-byte string.  The signing wrapper
/// promises both the value and the length, so the fallback branch is never
/// the one taken; it only lets spec-level reasoning rely on the length.
pub open spec fn spec_mac(key: Seq<u8>, msg: Seq<u8>) -> Seq<u8> {
    let m = mac_of(key, msg);
    if m.len() == KEY_LEN {
        m
    } else {
        Seq::new(KEY_LEN as nat, |i: int| 0u8)
    }
}

/// Relies on monosodium's auth_sign (libsodium crypto_auth): writes the
/// 32-byte authentication tag of `msg` under `key`.  The underlying call
/// cannot fail for a 32-byte key and panics on any other key length, which
/// the precondition rules out.
#[verifier::external_body]
pub fn mac_sign(key: &[u8], msg: &[u8]) -> (r: Vec<u8>)
    requires
        key@.len() == KEY_LEN,
    ensures
        r@ == mac_of(key@, msg@),
        r@.len() == KEY_LEN,
        r@ == spec_mac(key@, msg@),
{
    let mut sig = vec![0u8; KEY_LEN];
    monosodium::auth_sign(&mut sig, msg, key).expect("signing cannot fail on a 32-byte key");
    sig
}

/// Relies on monosodium's auth_verify (libsodium crypto_auth_verify): it
/// accepts exactly when the 32-byte tag equals the tag that auth_sign
/// computes for `msg` under `key` — and that tag always holds 32 bytes, so
/// comparing against `spec_mac` says the same thing.  The underlying call
/// panics unless both the tag and the key hold 32 bytes, which the
/// preconditions rule out.
#[verifier::external_body]
pub fn mac_verify(sig: &[u8], msg: &[u8], key: &[u8]) -> (r: bool)
    requires
        key@.len() == KEY_LEN,
        sig@.len() == KEY_LEN,
    ensures
        r == (sig@ == spec_mac(key@, msg@)),
{
    monosodium::auth_verify(sig, msg, key).is_ok()
}

/// The keyed content hash (libsodium's generic hash) of a message under a
/// key.  The result depends on the two arguments alone.
pub uninterp spec fn generic_hash_of(key: Seq<u8>, msg: Seq<u8>) -> Seq<u8>;

/// The keyed content hash as a 32-byte string, as `spec_mac` is to
/// `mac_of`: the hashing wrapper promises both the value and the length, so
/// the fallback branch is never the one taken.
pub open spec fn spec_generic_hash(key: Seq<u8>, msg: Seq<u8>) -> Seq<u8> {
    let m = generic_hash_of(key, msg);
    if m.len() == KEY_LEN {
        m
    } else {
        Seq::new(KEY_LEN as nat, |i: int| 0u8)
    }
}

/// Relies on monosodium's generic_hash (libsodium crypto_generichash,
/// keyed): writes the 32-byte keyed hash of `msg` under `key`.  The
/// underlying call cannot fail for 32-byte output and key buffers and
/// panics on other lengths, which the precondition rules out.
#[verifier::external_body]
pub fn generic_hash(key: &[u8], msg: &[u8]) -> (r: Vec<u8>)
    requires
        key@.len() == KEY_LEN,
    ensures
        r@ == generic_hash_of(key@, msg@),
        r@.len() == KEY_LEN,
        r@ == spec_generic_hash(key@, msg@),
{
    let mut hash = vec![0u8; KEY_LEN];
    monosodium::generic_hash(&mut hash, msg, key).expect("hashing cannot fail on 32-byte buffers");
    hash
}

/// What base64 decoding (URL-safe alphabet, with padding) yields for a
/// string: the decoded bytes, or nothing when the string is not valid
/// base64.  The result depends on the string alone.
pub uninterp spec fn base64_decode_of(s: Seq<char>) -> Option<Seq<u8>>;

/// Relies on the base64 crate's decode_config_buf with the URL_SAFE
/// configuration: appends the decoded bytes to the buffer, or errors on
/// invalid input.
#[verifier::external_body]
pub fn base64_decode(s: &str) -> (r: Option<Vec<u8>>)
    ensures
        match r {
            Some(v) => base64_decode_of(s@) == Some(v@),
            None => base64_decode_of(s@) is None,
        },
{
    let mut buf = Vec::new();
    if base64::decode_config_buf(s, base64::URL_SAFE, &mut buf).is_err() {
        None
    } else {
        Some(buf)
    }
}

/// The base64 encoding (URL-safe alphabet, with padding) of a byte string.
/// The result depends on the bytes alone.
pub uninterp spec fn base64_encode_of(b: Seq<u8>) -> Seq<char>;

/// Relies on the base64 crate's encode_config_buf with the URL_SAFE
/// configuration: appends the encoding of `b` to the string buffer.
#[verifier::external_body]
pub fn base64_encode(b: &[u8]) -> (r: String)
    ensures
        r@ == base64_encode_of(b@),
{
    let mut out = String::new();
    base64::encode_config_buf(b, base64::URL_SAFE, &mut out);
    out
}

/// Relies on rand's fill_bytes on the thread-local generator: fills the
/// buffer with random bytes.  Nothing is promised of the values; only the
/// length is known.
#[verifier::external_body]
pub fn random_key() -> (r: Vec<u8>)
    ensures
        r@.len() == KEY_LEN,
{
    let mut key = vec![0u8; KEY_LEN];
    rand::RngCore::fill_bytes(&mut rand::thread_rng(), &mut key);
    key
}

/// Relies on rand's gen_range on an inclusive range: returns a value within
/// the bounds and panics on an empty range, which the precondition rules
/// out.  Nothing more is promised: the value is random.
#[verifier::external_body]
pub fn random_in_range(lo: u64, hi: u64) -> (r: u64)
    requires
        lo <= hi,
    ensures
        lo <= r <= hi,
{
    rand::Rng::gen_range(&mut rand::thread_rng(), lo..=hi)
}

/// Decode `s` and accept the result only if it holds exactly `len_bytes`
/// bytes.
pub fn base64_str_to_vec(len_bytes: usize, s: &str) -> (r: Option<Vec<u8>>)
    ensures
        match r {
            Some(v) => base64_decode_of(s@) == Some(v@) && v@.len() == len_bytes,
            None => base64_decode_of(s@) matches Some(w) ==> w.len() != len_bytes,
        },
{
    match base64_decode(s) {
        None => None,
        Some(v) => {
            if v.len() != len_bytes {
                None
            } else {
                Some(v)
            }
        }
    }
}

} // verus!
