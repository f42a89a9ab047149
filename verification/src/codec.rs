//! Signed channel codec.
//!
//! Every frame exchanged with the registry is laid out as
//! `[32-byte tag][4-byte little-endian payload length][payload]`, where the
//! tag authenticates everything after it under the connection's secret
//! token.  A frame is verified before any byte of its payload is
//! interpreted: decoding rejects short frames, frames whose tag does not
//! verify, and frames whose declared length disagrees with the bytes
//! actually present.

use vstd::prelude::*;
use crate::bytes::{spec_le_word, spec_u32_le, lemma_u32_le_word, push_bytes, u32_from_le,
    u32_to_le};
use crate::crypto::{KEY_LEN, base64_decode_of, base64_str_to_vec, mac_sign, mac_verify,
    spec_mac};

verus! {

/// Number of bytes before the payload: the tag and the length word.
pub const FRAME_HEADER_LEN: usize = 36;

/// A secret signing token: exactly 32 key bytes, obtained by base64
/// decoding the configured token string.
pub struct SecretToken {
    key: Vec<u8>,
}

impl SecretToken {
    pub closed spec fn view(&self) -> Seq<u8> {
        self.key@
    }

    pub open spec fn wf(&self) -> bool {
        self.view().len() == KEY_LEN
    }

    /// Resolve a token from its base64 text form.  Fails exactly when the
    /// text does not decode, or decodes to a string of the wrong length.
    pub fn from_base64(s: &str) -> (r: Option<SecretToken>)
        ensures
            match r {
                Some(t) => t.wf() && base64_decode_of(s@) == Some(t.view()),
                None => base64_decode_of(s@) matches Some(w) ==> w.len() != KEY_LEN,
            },
    {
        match base64_str_to_vec(KEY_LEN, s) {
            None => None,
            Some(key) => Some(SecretToken { key }),
        }
    }

    pub fn key_bytes(&self) -> (r: &Vec<u8>)
        ensures
            r@ == self.view(),
    {
        &self.key
    }
}

/// Why a frame was rejected.
#[derive(Clone, Copy, PartialEq, Eq, Structural, Debug)]
pub enum CodecError {
    /// The frame is shorter than a header.
    TooShort,
    /// The tag does not verify under the token.
    BadSignature,
    /// The declared payload length disagrees with the bytes present.
    LengthMismatch,
}

/// The body of a frame: the length word followed by the payload.
pub open spec fn spec_frame_body(payload: Seq<u8>) -> Seq<u8> {
    spec_u32_le(payload.len() as u32) + payload
}

/// The whole signed frame for a payload under a key.
pub open spec fn spec_frame(key: Seq<u8>, payload: Seq<u8>) -> Seq<u8> {
    spec_mac(key, spec_frame_body(payload)) + spec_frame_body(payload)
}

/// What decoding yields for a byte string under a key.
pub open spec fn spec_decode(key: Seq<u8>, frame: Seq<u8>) -> Result<Seq<u8>, CodecError> {
    if frame.len() < FRAME_HEADER_LEN {
        Err(CodecError::TooShort)
    } else if frame.subrange(0, KEY_LEN as int) != spec_mac(key, frame.skip(KEY_LEN as int)) {
        Err(CodecError::BadSignature)
    } else if spec_le_word(frame.subrange(KEY_LEN as int, FRAME_HEADER_LEN as int))
        != frame.len() - FRAME_HEADER_LEN {
        Err(CodecError::LengthMismatch)
    } else {
        Ok(frame.skip(FRAME_HEADER_LEN as int))
    }
}

/// Sign and frame a payload.
pub fn encode(token: &SecretToken, payload: &Vec<u8>) -> (r: Vec<u8>)
    requires
        token.wf(),
        payload@.len() <= u32::MAX,
    ensures
        r@ == spec_frame(token.view(), payload@),
        r@.len() == FRAME_HEADER_LEN + payload@.len(),
{
    let len_word: u32 = payload.len() as u32;
    let mut body = u32_to_le(len_word);
    push_bytes(&mut body, payload.as_slice());
    assert(body@ =~= spec_frame_body(payload@));
    let mut frame = mac_sign(token.key_bytes().as_slice(), body.as_slice());
    push_bytes(&mut frame, body.as_slice());
    assert(frame@ =~= spec_frame(token.view(), payload@));
    frame
}

/// Verify and unframe a received byte string, yielding its payload.
pub fn decode(token: &SecretToken, frame: &Vec<u8>) -> (r: Result<Vec<u8>, CodecError>)
    requires
        token.wf(),
    ensures
        match r {
            Ok(payload) => spec_decode(token.view(), frame@) == Ok::<_, CodecError>(payload@),
            Err(e) => spec_decode(token.view(), frame@) == Err::<Seq<u8>, _>(e),
        },
{
    if frame.len() < FRAME_HEADER_LEN {
        return Err(CodecError::TooShort);
    }
    let (sig, body) = frame.as_slice().split_at(KEY_LEN);
    assert(sig@ =~= frame@.subrange(0, KEY_LEN as int));
    assert(body@ =~= frame@.skip(KEY_LEN as int));
    if !mac_verify(sig, body, token.key_bytes().as_slice()) {
        return Err(CodecError::BadSignature);
    }
    let declared: u32 = u32_from_le(body[0], body[1], body[2], body[3]);
    assert(seq![body@[0], body@[1], body@[2], body@[3]]
        =~= frame@.subrange(KEY_LEN as int, FRAME_HEADER_LEN as int));
    if !(declared as usize == frame.len() - FRAME_HEADER_LEN) {
        return Err(CodecError::LengthMismatch);
    }
    let (_, payload) = body.split_at(4);
    assert(payload@ =~= frame@.skip(FRAME_HEADER_LEN as int));
    Ok(vstd::slice::slice_to_vec(payload))
}

/// Law: decoding a frame that was encoded under the same token yields the
/// original payload.
pub proof fn lemma_decode_of_encode(key: Seq<u8>, payload: Seq<u8>)
    requires
        payload.len() <= u32::MAX,
    ensures
        spec_decode(key, spec_frame(key, payload)) == Ok::<_, CodecError>(payload),
{
    let body = spec_frame_body(payload);
    let frame = spec_frame(key, payload);
    lemma_u32_le_word(payload.len() as u32);
    assert(frame.subrange(0, KEY_LEN as int) =~= spec_mac(key, body));
    assert(frame.skip(KEY_LEN as int) =~= body);
    assert(frame.subrange(KEY_LEN as int, FRAME_HEADER_LEN as int)
        =~= spec_u32_le(payload.len() as u32));
    assert(frame.skip(FRAME_HEADER_LEN as int) =~= payload);
}

/// Law: a frame shorter than a header is rejected as such, whatever the
/// token.
pub proof fn lemma_short_frame_rejected(key: Seq<u8>, frame: Seq<u8>)
    requires
        frame.len() < FRAME_HEADER_LEN,
    ensures
        spec_decode(key, frame) == Err::<Seq<u8>, _>(CodecError::TooShort),
{
}

/// Law: tampering with any single byte of a well-formed frame's tag makes
/// decoding fail with a verification error.
pub proof fn lemma_tampered_signature_rejected(key: Seq<u8>, payload: Seq<u8>, i: int, b: u8)
    requires
        payload.len() <= u32::MAX,
        0 <= i < KEY_LEN,
        b != spec_frame(key, payload)[i],
    ensures
        spec_decode(key, spec_frame(key, payload).update(i, b))
            == Err::<Seq<u8>, _>(CodecError::BadSignature),
{
    let frame = spec_frame(key, payload);
    let tampered = frame.update(i, b);
    assert(tampered.skip(KEY_LEN as int) =~= frame.skip(KEY_LEN as int));
    assert(frame.skip(KEY_LEN as int) =~= spec_frame_body(payload));
    assert(tampered.subrange(0, KEY_LEN as int)[i] == b);
    assert(spec_mac(key, tampered.skip(KEY_LEN as int))[i] == frame[i]);
}

} // verus!
