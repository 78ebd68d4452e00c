//! Decoding of what a completion callback carries.
//!
//! The foreign side answers a request by a callback that carries the
//! request's handle and a raw payload. The payload is decoded where the
//! callback runs, and the decoded outcome travels to the context that owns
//! the table of outstanding requests as a `CompletionMessage`.

use vstd::prelude::*;
use crate::error::{ErrorView, NativeExtensionsError, NativeExtensionsResult};
use crate::pending::CompletionMessage;
use crate::value::{Value, ValueView};

verus! {

/// A raw payload as the foreign side hands it over: nothing, a text-like
/// object, or an array of the foreign runtime's signed bytes.
#[derive(Debug, PartialEq, Eq)]
pub enum ForeignPayload {
    Null,
    CharSequence(String),
    ByteArray(Vec<i8>),
}

/// The byte with the bit pattern of the signed byte `b`.
pub open spec fn spec_unsigned(b: i8) -> u8 {
    if b >= 0 {
        b as u8
    } else {
        (b + 256) as u8
    }
}

/// The bytes with the bit patterns of `signed`, in order.
pub open spec fn spec_unsigned_bytes(signed: Seq<i8>) -> Seq<u8> {
    Seq::new(signed.len(), |i: int| spec_unsigned(signed[i]))
}

/// The value that a raw payload decodes to: nothing to the absent value, a
/// text-like object to its text, a byte array to its bytes.
pub open spec fn spec_decode(payload: ForeignPayload) -> ValueView {
    match payload {
        ForeignPayload::Null => ValueView::Null,
        ForeignPayload::CharSequence(text) => ValueView::String(text@),
        ForeignPayload::ByteArray(signed) => ValueView::U8List(spec_unsigned_bytes(signed@)),
    }
}

/// The mathematical value of the outcome of a fetch.
pub open spec fn outcome_view(outcome: NativeExtensionsResult<Value>) -> Result<
    ValueView,
    ErrorView,
> {
    match outcome {
        Ok(value) => Ok(value@),
        Err(error) => Err(error@),
    }
}

/// The outcome that a callback's payload decodes to. A payload that could
/// not be read is the error that reading it gave.
pub open spec fn spec_decode_outcome(data: NativeExtensionsResult<ForeignPayload>) -> Result<
    ValueView,
    ErrorView,
> {
    match data {
        Ok(payload) => Ok(spec_decode(payload)),
        Err(error) => Err(error@),
    }
}

/// The byte with the bit pattern of the signed byte `b`.
pub fn unsigned(b: i8) -> (u: u8)
    ensures
        u == spec_unsigned(b),
{
    if b >= 0 {
        b as u8
    } else {
        let wide: i16 = b as i16;
        (wide + 256) as u8
    }
}

/// The bytes with the bit patterns of `signed`, in order.
pub fn unsigned_bytes(signed: &Vec<i8>) -> (bytes: Vec<u8>)
    ensures
        bytes@ == spec_unsigned_bytes(signed@),
{
    let mut bytes: Vec<u8> = Vec::with_capacity(signed.len());
    let mut i: usize = 0;
    while i < signed.len()
        invariant
            i <= signed.len(),
            bytes@ == spec_unsigned_bytes(signed@.take(i as int)),
        decreases signed.len() - i,
    {
        bytes.push(unsigned(signed[i]));
        i += 1;
        assert(bytes@ =~= spec_unsigned_bytes(signed@.take(i as int)));
    }
    assert(signed@.take(i as int) =~= signed@);
    bytes
}

/// Decodes a raw payload.
pub fn decode_payload(payload: ForeignPayload) -> (value: Value)
    ensures
        value@ == spec_decode(payload),
{
    match payload {
        ForeignPayload::Null => Value::Null,
        ForeignPayload::CharSequence(text) => Value::String(text),
        ForeignPayload::ByteArray(signed) => Value::U8List(unsigned_bytes(&signed)),
    }
}

/// Turns what a completion callback carries into the message for the
/// context that owns the outstanding requests. The handle is widened as it
/// is; the payload is decoded, and where reading it failed, that error is
/// the outcome.
pub fn completion_message(handle: i32, data: NativeExtensionsResult<ForeignPayload>) -> (message:
    CompletionMessage)
    ensures
        message.handle == handle,
        outcome_view(message.result) == spec_decode_outcome(data),
        data matches Err(error) ==> message.result == Err::<Value, NativeExtensionsError>(error),
{
    let result = match data {
        Ok(payload) => Ok(decode_payload(payload)),
        Err(error) => Err(error),
    };
    CompletionMessage { handle: handle as i64, result }
}

} // verus!
