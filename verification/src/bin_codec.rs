//! The versioned binary envelope of a serialized security context: one
//! version byte followed by the serialized payload.

use vstd::prelude::*;

use crate::text::{cat, decimal, owned, usize_to_decimal};

verus! {

/// The version byte of the envelope.
pub const SECCTX_BIN_VERSION: u8 = 1;

/// Errors of encoding a security context; a serializer error is kept as its message.
#[derive(Debug)]
#[non_exhaustive]
pub enum SecCtxEncodeError {
    Postcard(String),
}

/// Errors of decoding a security context; a deserializer error is kept as its message.
#[derive(Debug)]
#[non_exhaustive]
pub enum SecCtxDecodeError {
    Empty,
    UnsupportedVersion(u8),
    Postcard(String),
}

impl SecCtxEncodeError {
    /// The message of this error.
    pub fn to_string(&self) -> (r: String)
        ensures
            r@ == "security context serialization failed"@,
    {
        owned("security context serialization failed")
    }
}

/// The message of a decoding error.
pub open spec fn decode_error_text(e: SecCtxDecodeError) -> Seq<char> {
    match e {
        SecCtxDecodeError::Empty => "empty secctx blob"@,
        SecCtxDecodeError::UnsupportedVersion(v) => "unsupported secctx version: "@ + decimal(v as nat),
        SecCtxDecodeError::Postcard(_) => "security context deserialization failed"@,
    }
}

impl SecCtxDecodeError {
    /// The message of this error.
    pub fn to_string(&self) -> (r: String)
        ensures
            r@ == decode_error_text(*self),
    {
        match self {
            SecCtxDecodeError::Empty => owned("empty secctx blob"),
            SecCtxDecodeError::UnsupportedVersion(v) => {
                let d = usize_to_decimal(*v as usize);
                cat("unsupported secctx version: ", d.as_str())
            },
            SecCtxDecodeError::Postcard(_) => owned("security context deserialization failed"),
        }
    }
}

/// Wraps a serialized payload in the envelope: the version byte, then the payload.
pub fn encode_bin(payload: &[u8]) -> (r: Vec<u8>)
    ensures
        r@ == seq![SECCTX_BIN_VERSION] + payload@,
{
    let mut buf: Vec<u8> = Vec::new();
    buf.push(SECCTX_BIN_VERSION);
    let mut i: usize = 0;
    while i < payload.len()
        invariant
            i <= payload@.len(),
            buf@ == seq![SECCTX_BIN_VERSION] + payload@.take(i as int),
        decreases payload.len() - i,
    {
        buf.push(payload[i]);
        assert(payload@.take(i + 1) =~= payload@.take(i as int).push(payload@[i as int]));
        i += 1;
    }
    assert(payload@.take(payload@.len() as int) =~= payload@);
    buf
}

/// The payload of an envelope: refused when it is empty or its version byte
/// is not the supported one.
pub open spec fn decode_spec(bytes: Seq<u8>) -> Result<Seq<u8>, SecCtxDecodeError> {
    if bytes.len() == 0 {
        Err(SecCtxDecodeError::Empty)
    } else if bytes[0] != SECCTX_BIN_VERSION {
        Err(SecCtxDecodeError::UnsupportedVersion(bytes[0]))
    } else {
        Ok(bytes.drop_first())
    }
}

/// Takes the payload out of an envelope.
pub fn decode_bin(bytes: &[u8]) -> (r: Result<Vec<u8>, SecCtxDecodeError>)
    ensures
        match r {
            Ok(p) => decode_spec(bytes@) == Ok::<Seq<u8>, SecCtxDecodeError>(p@),
            Err(e) => decode_spec(bytes@) == Err::<Seq<u8>, SecCtxDecodeError>(e),
        },
{
    if bytes.len() == 0 {
        return Err(SecCtxDecodeError::Empty);
    }
    let version = bytes[0];
    if version != SECCTX_BIN_VERSION {
        return Err(SecCtxDecodeError::UnsupportedVersion(version));
    }
    let mut payload: Vec<u8> = Vec::new();
    let mut i: usize = 1;
    while i < bytes.len()
        invariant
            1 <= i <= bytes@.len(),
            payload@ == bytes@.subrange(1, i as int),
        decreases bytes.len() - i,
    {
        payload.push(bytes[i]);
        assert(bytes@.subrange(1, i + 1) =~= bytes@.subrange(1, i as int).push(bytes@[i as int]));
        i += 1;
    }
    assert(bytes@.subrange(1, bytes@.len() as int) =~= bytes@.drop_first());
    Ok(payload)
}

/// Decoding an encoded payload gives the payload back.
pub proof fn lemma_decode_encode(payload: Seq<u8>)
    ensures
        decode_spec(seq![SECCTX_BIN_VERSION] + payload) == Ok::<Seq<u8>, SecCtxDecodeError>(payload),
{
    assert((seq![SECCTX_BIN_VERSION] + payload).drop_first() =~= payload);
}

/// An envelope that decodes is the encoding of its payload.
pub proof fn lemma_encode_decode(bytes: Seq<u8>)
    requires
        decode_spec(bytes) is Ok,
    ensures
        seq![SECCTX_BIN_VERSION] + decode_spec(bytes)->Ok_0 == bytes,
{
    assert(seq![SECCTX_BIN_VERSION] + bytes.drop_first() =~= bytes);
}

} // verus!
