//! The values that cross the boundary, in both directions.

use crate::decimal::{parse_decimal, parsed_size};
use std::sync::Arc;
use vstd::prelude::*;
use vstd::string::*;
use vstd::utf8::*;

verus! {

/// A byte buffer and who owns it.
#[derive(Debug, Clone, PartialEq)]
pub enum ByteBuffer {
    /// Freshly produced bytes with a single owner.
    Exclusive(Vec<u8>),
    /// Bytes that are shared and never written again.
    Shared(Arc<Vec<u8>>),
}

/// One value of a call or of its result: text or bytes.
#[derive(Debug, Clone, PartialEq)]
pub enum Param {
    Text(String),
    Bytes(ByteBuffer),
}

/// Why a param could not be read as asked.
#[derive(Debug, Clone, Copy, PartialEq, Eq)]
pub enum ParamError {
    /// The bytes are not UTF-8 text.
    Decode,
    /// The text is not a size written in decimal digits.
    Parse,
}

/// What a `Param` holds.
pub enum ParamView {
    Text(Seq<char>),
    Bytes { data: Seq<u8>, shared: bool },
}

impl View for ByteBuffer {
    type V = Seq<u8>;

    open spec fn view(&self) -> Seq<u8> {
        match self {
            ByteBuffer::Exclusive(data) => data@,
            ByteBuffer::Shared(data) => data@,
        }
    }
}

impl View for Param {
    type V = ParamView;

    open spec fn view(&self) -> ParamView {
        match self {
            Param::Text(text) => ParamView::Text(text@),
            Param::Bytes(buffer) => ParamView::Bytes {
                data: buffer@,
                shared: buffer is Shared,
            },
        }
    }
}

/// What reading `bytes` as text gives: the characters that the bytes encode,
/// or `Decode` when they are not UTF-8.
pub open spec fn text_of_bytes(bytes: Seq<u8>) -> Result<Seq<char>, ParamError> {
    if valid_utf8(bytes) {
        Ok(decode_utf8(bytes))
    } else {
        Err(ParamError::Decode)
    }
}

/// What reading `text` as a size gives: its value, or `Parse`.
pub open spec fn size_of_text(text: Seq<char>) -> Result<usize, ParamError> {
    match parsed_size(text) {
        Some(size) => Ok(size),
        None => Err(ParamError::Parse),
    }
}

impl ParamView {
    /// The text of this value: what a `Text` holds, what a `Bytes` encodes.
    pub open spec fn text(self) -> Result<Seq<char>, ParamError> {
        match self {
            ParamView::Text(text) => Ok(text),
            ParamView::Bytes { data, .. } => text_of_bytes(data),
        }
    }

    /// The size that this value's text writes.
    pub open spec fn number(self) -> Result<usize, ParamError> {
        match self.text() {
            Ok(text) => size_of_text(text),
            Err(e) => Err(e),
        }
    }
}

/// `std::str::from_utf8`: gives the text exactly when `bytes` is valid
/// UTF-8, and the text then encodes to the same bytes.
#[verifier::external_body]
fn utf8_text(bytes: &[u8]) -> (r: Option<&str>)
    ensures
        r is Some <==> valid_utf8(bytes@),
        r matches Some(text) ==> text.spec_bytes() == bytes@,
{
    std::str::from_utf8(bytes).ok()
}

impl ByteBuffer {
    /// The bytes, whoever owns them.
    pub fn as_slice(&self) -> (bytes: &[u8])
        ensures
            bytes@ == self@,
    {
        match self {
            ByteBuffer::Exclusive(data) => data.as_slice(),
            ByteBuffer::Shared(data) => data.as_slice(),
        }
    }

    /// Whether the buffer is shared.
    pub fn is_shared(&self) -> (shared: bool)
        ensures
            shared == (self is Shared),
    {
        match self {
            ByteBuffer::Exclusive(_) => false,
            ByteBuffer::Shared(_) => true,
        }
    }
}

impl Param {
    /// A `Text` holding `text`.
    pub fn from_text(text: String) -> (param: Param)
        ensures
            param@ == ParamView::Text(text@),
    {
        Param::Text(text)
    }

    /// A `Bytes` that owns `bytes` exclusively.
    pub fn from_bytes(bytes: Vec<u8>) -> (param: Param)
        ensures
            param@ == (ParamView::Bytes { data: bytes@, shared: false }),
    {
        Param::Bytes(ByteBuffer::Exclusive(bytes))
    }

    /// A `Bytes` over a shared, immutable buffer.
    pub fn from_shared_bytes(bytes: Arc<Vec<u8>>) -> (param: Param)
        ensures
            param@ == (ParamView::Bytes { data: bytes@, shared: true }),
    {
        Param::Bytes(ByteBuffer::Shared(bytes))
    }

    /// Whether this is a `Text`.
    pub fn is_text(&self) -> (yes: bool)
        ensures
            yes == (self@ is Text),
    {
        match self {
            Param::Text(_) => true,
            Param::Bytes(_) => false,
        }
    }

    /// Whether this is a `Bytes`.
    pub fn is_bytes(&self) -> (yes: bool)
        ensures
            yes == (self@ is Bytes),
    {
        match self {
            Param::Text(_) => false,
            Param::Bytes(_) => true,
        }
    }

    /// The text of a `Text`.
    pub fn as_text(&self) -> (text: &str)
        requires
            self@ is Text,
        ensures
            self@ == ParamView::Text(text@),
    {
        match self {
            Param::Text(text) => text.as_str(),
            Param::Bytes(_) => {
                proof {
                    assert(false);
                }
                ""
            },
        }
    }

    /// The bytes of a `Bytes`.
    pub fn as_byte_slice(&self) -> (bytes: &[u8])
        requires
            self@ is Bytes,
        ensures
            self@ matches ParamView::Bytes { data, .. } && data == bytes@,
    {
        match self {
            Param::Bytes(buffer) => buffer.as_slice(),
            Param::Text(_) => {
                proof {
                    assert(false);
                }
                &[]
            },
        }
    }

    /// Reads the value as text: the text of a `Text`, the text that a
    /// `Bytes` encodes, or `Decode` when the bytes are not UTF-8.
    pub fn read_text(&self) -> (r: Result<&str, ParamError>)
        ensures
            match r {
                Ok(text) => self@.text() == Ok::<Seq<char>, ParamError>(text@),
                Err(e) => self@.text() == Err::<Seq<char>, ParamError>(e),
            },
    {
        match self {
            Param::Text(text) => Ok(text.as_str()),
            Param::Bytes(buffer) => match utf8_text(buffer.as_slice()) {
                Some(text) => {
                    proof {
                        encode_utf8_decode_utf8(text@);
                    }
                    Ok(text)
                },
                None => Err(ParamError::Decode),
            },
        }
    }

    /// Reads the value as a size: `Decode` when bytes are not text, `Parse`
    /// when the text is not a run of decimal digits that fits a `usize`.
    pub fn read_number(&self) -> (r: Result<usize, ParamError>)
        ensures
            r == self@.number(),
    {
        match self.read_text() {
            Ok(text) => match parse_decimal(text) {
                Some(size) => Ok(size),
                None => Err(ParamError::Parse),
            },
            Err(e) => Err(e),
        }
    }
}

} // verus!
