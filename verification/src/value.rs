//! The payload of a successful data fetch.

use vstd::prelude::*;

verus! {

/// A fetched payload: nothing, a text, or raw bytes. A successful fetch
/// produces exactly one of these shapes.
#[derive(Debug, PartialEq, Eq)]
pub enum Value {
    /// The source had nothing for the item in the format asked for.
    Null,
    /// A text.
    String(String),
    /// A sequence of raw bytes.
    U8List(Vec<u8>),
}

/// The mathematical value of a [`Value`].
pub ghost enum ValueView {
    Null,
    String(Seq<char>),
    U8List(Seq<u8>),
}

impl View for Value {
    type V = ValueView;

    open spec fn view(&self) -> ValueView {
        match self {
            Value::Null => ValueView::Null,
            Value::String(text) => ValueView::String(text@),
            Value::U8List(bytes) => ValueView::U8List(bytes@),
        }
    }
}

impl Clone for Value {
    fn clone(&self) -> (copy: Self)
        ensures
            copy@ == self@,
    {
        match self {
            Value::Null => Value::Null,
            Value::String(text) => Value::String(text.clone()),
            Value::U8List(bytes) => Value::U8List(bytes.clone()),
        }
    }
}

impl Value {
    /// Whether the payload is absent.
    pub fn is_null(&self) -> (b: bool)
        ensures
            b == (self@ == ValueView::Null),
    {
        match self {
            Value::Null => true,
            _ => false,
        }
    }

    /// The text of a text payload.
    pub fn as_text(&self) -> (text: Option<&String>)
        ensures
            match text {
                Some(t) => self@ == ValueView::String(t@),
                None => !(self@ is String),
            },
    {
        match self {
            Value::String(text) => Some(text),
            _ => None,
        }
    }

    /// The bytes of a raw payload.
    pub fn as_bytes(&self) -> (bytes: Option<&Vec<u8>>)
        ensures
            match bytes {
                Some(b) => self@ == ValueView::U8List(b@),
                None => !(self@ is U8List),
            },
    {
        match self {
            Value::U8List(bytes) => Some(bytes),
            _ => None,
        }
    }
}

} // verus!
