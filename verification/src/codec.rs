//! The codec adapter: decodes a framed compressed stream into an output
//! buffer of a declared size.
//!
//! The output always has the declared size. Decoding stops when the buffer
//! is full, so a stream that holds more than was declared is cut at the
//! bound; a stream that gives less leaves the rest of the buffer zero.

use crate::diagnostics::{Diagnostic, StopCause};
use lz4_flex::frame::FrameDecoder;
use std::io::Read;
use vstd::prelude::*;

verus! {

/// A decoder over one compressed input. It holds an
/// `lz4_flex::frame::FrameDecoder` that reads from the input's bytes. What it
/// is yet to hand out is spoken of through `reader_pending`.
#[verifier::external_body]
pub struct FrameReader<'a> {
    inner: FrameDecoder<&'a [u8]>,
}

/// `std::io::Error`, the error of a read: carried through to its message.
#[verifier::external_type_specification]
#[verifier::external_body]
pub struct ExIoError(std::io::Error);

/// The bytes that a decoder over `input` hands out, read after read, before
/// it first reports the end of its stream or an error.
pub uninterp spec fn frame_payload(input: Seq<u8>) -> Seq<u8>;

/// The bytes that `reader` has yet to hand out before it first reports the
/// end of its stream or an error.
pub uninterp spec fn reader_pending(reader: FrameReader) -> Seq<u8>;

/// `FrameDecoder::new` on the bytes of `input`: a decoder that has handed
/// out nothing yet, so all of the input's payload is pending.
#[verifier::external_body]
fn open_reader<'a>(input: &'a [u8]) -> (reader: FrameReader<'a>)
    ensures
        reader_pending(reader) == frame_payload(input@),
{
    FrameReader { inner: FrameDecoder::new(input) }
}

/// `FrameDecoder`'s `read` into `buf` from index `from` on. The decoder
/// copies the next pending bytes to the front of that range, as many as fit
/// and at least one, and reports their number; it reports zero, or an error,
/// only when nothing is pending, and then writes nothing. The length of
/// `buf` and the bytes outside the written range stay as they were.
#[verifier::external_body]
fn read_into(reader: &mut FrameReader, buf: &mut Vec<u8>, from: usize) -> (r: Result<
    usize,
    std::io::Error,
>)
    requires
        from < old(buf).len(),
    ensures
        final(buf).len() == old(buf).len(),
        match r {
            Ok(n) => {
                &&& n <= old(buf).len() - from
                &&& n <= reader_pending(*old(reader)).len()
                &&& n == 0 <==> reader_pending(*old(reader)).len() == 0
                &&& forall|i: int|
                    0 <= i < old(buf).len() ==> #[trigger] final(buf)@[i] == (if from <= i < from
                        + n {
                        reader_pending(*old(reader))[i - from]
                    } else {
                        old(buf)@[i]
                    })
                &&& n > 0 ==> reader_pending(*final(reader)) == reader_pending(
                    *old(reader),
                ).skip(n as int)
            },
            Err(_) => {
                &&& reader_pending(*old(reader)).len() == 0
                &&& final(buf)@ == old(buf)@
            },
        },
{
    reader.inner.read(&mut buf[from..])
}

/// `payload` laid into a zeroed buffer of `size` bytes: its first `size`
/// bytes, then zeros up to `size`.
pub open spec fn zero_padded(payload: Seq<u8>, size: nat) -> Seq<u8> {
    Seq::new(
        size,
        |i: int|
            if i < payload.len() {
                payload[i]
            } else {
                0u8
            },
    )
}

/// How many bytes of a payload of `available` bytes land in `size` bytes.
pub open spec fn filled_len(available: nat, size: nat) -> nat {
    if available < size {
        available
    } else {
        size
    }
}

/// What one read of the decoder reported.
#[derive(Debug, PartialEq)]
pub enum ReadReport {
    /// This many bytes were written, at least one.
    Wrote(usize),
    /// The stream ended.
    Ended,
    /// The decoder failed, with its message.
    Failed(String),
}

/// How far an output buffer has been filled.
#[derive(Debug, PartialEq)]
pub struct Fill {
    /// The size of the buffer.
    pub declared: usize,
    /// How many bytes at its front are written.
    pub filled: usize,
    /// Why reading stopped, once it has.
    pub stop: Option<StopCause>,
}

impl Fill {
    /// No more is written than the buffer holds.
    pub open spec fn wf(&self) -> bool {
        self.filled <= self.declared
    }

    /// More can be read: the buffer has room and nothing stopped the reading.
    pub open spec fn open(&self) -> bool {
        self.filled < self.declared && self.stop is None
    }

    /// The progress after a read that reported `report`.
    pub open spec fn after(self, report: ReadReport) -> Fill {
        match report {
            ReadReport::Wrote(n) => Fill {
                declared: self.declared,
                filled: (self.filled + n) as usize,
                stop: self.stop,
            },
            ReadReport::Ended => Fill {
                declared: self.declared,
                filled: self.filled,
                stop: Some(StopCause::EndOfStream),
            },
            ReadReport::Failed(message) => Fill {
                declared: self.declared,
                filled: self.filled,
                stop: Some(StopCause::Decoder(message)),
            },
        }
    }

    /// What is recorded when reading is over: nothing for a full buffer,
    /// else the shortfall with its cause.
    pub open spec fn verdict(self) -> Option<Diagnostic> {
        if self.filled < self.declared {
            Some(
                Diagnostic::ShortDecode {
                    declared: self.declared,
                    filled: self.filled,
                    cause: match self.stop {
                        Some(cause) => cause,
                        None => StopCause::EndOfStream,
                    },
                },
            )
        } else {
            None
        }
    }

    /// Nothing written yet into a buffer of `declared` bytes.
    pub fn start(declared: usize) -> (fill: Fill)
        ensures
            fill == (Fill { declared, filled: 0, stop: None }),
            fill.wf(),
    {
        Fill { declared, filled: 0, stop: None }
    }

    /// Whether another read is due.
    pub fn is_open(&self) -> (yes: bool)
        ensures
            yes == self.open(),
    {
        self.filled < self.declared && self.stop.is_none()
    }

    /// Takes in what a read reported.
    pub fn absorb(self, report: ReadReport) -> (next: Fill)
        requires
            self.wf(),
            report matches ReadReport::Wrote(n) ==> n <= self.declared - self.filled,
        ensures
            next == self.after(report),
            next.wf(),
    {
        match report {
            ReadReport::Wrote(n) => Fill {
                declared: self.declared,
                filled: self.filled + n,
                stop: self.stop,
            },
            ReadReport::Ended => Fill {
                declared: self.declared,
                filled: self.filled,
                stop: Some(StopCause::EndOfStream),
            },
            ReadReport::Failed(message) => Fill {
                declared: self.declared,
                filled: self.filled,
                stop: Some(StopCause::Decoder(message)),
            },
        }
    }

    /// The diagnostic to record, if the buffer was left short.
    pub fn into_diagnostic(self) -> (note: Option<Diagnostic>)
        ensures
            note == self.verdict(),
    {
        if self.filled < self.declared {
            let cause = match self.stop {
                Some(cause) => cause,
                None => StopCause::EndOfStream,
            };
            Some(Diagnostic::ShortDecode { declared: self.declared, filled: self.filled, cause })
        } else {
            None
        }
    }
}

/// A decoded output and the note on its shortfall, if it has one.
#[derive(Debug, PartialEq)]
pub struct Inflated {
    /// The output buffer, of the declared size.
    pub bytes: Vec<u8>,
    /// Set when fewer bytes were decoded than declared.
    pub shortfall: Option<Diagnostic>,
}

/// `note` is what decoding a payload of `available` bytes into `declared`
/// bytes records: nothing when the payload fills the buffer, else a
/// `ShortDecode` with both numbers.
pub open spec fn is_shortfall_note(note: Option<Diagnostic>, available: nat, declared: usize) -> bool {
    if available < declared {
        note matches Some(Diagnostic::ShortDecode { declared: d, filled: f, .. }) && d == declared
            && f == available
    } else {
        note is None
    }
}

/// Turns what `read_into` returned into a report.
fn report_of(outcome: Result<usize, std::io::Error>) -> (report: ReadReport)
    ensures
        match outcome {
            Ok(n) => report == (if n == 0 {
                ReadReport::Ended
            } else {
                ReadReport::Wrote(n)
            }),
            Err(_) => report is Failed,
        },
{
    match outcome {
        Ok(n) => if n == 0 {
            ReadReport::Ended
        } else {
            ReadReport::Wrote(n)
        },
        Err(e) => ReadReport::Failed(e.to_string()),
    }
}

/// Decodes `compressed` into a zeroed buffer of `declared` bytes.
///
/// The buffer holds the payload's first `declared` bytes and zeros after
/// them. A shortfall is noted exactly when the payload is shorter than
/// declared.
pub fn inflate(compressed: &[u8], declared: usize) -> (r: Inflated)
    ensures
        r.bytes@ == zero_padded(frame_payload(compressed@), declared as nat),
        is_shortfall_note(r.shortfall, frame_payload(compressed@).len(), declared),
{
    let ghost payload = frame_payload(compressed@);
    let mut out: Vec<u8> = vec![0u8; declared];
    let mut reader = open_reader(compressed);
    let mut fill = Fill::start(declared);
    while fill.is_open()
        invariant
            payload == frame_payload(compressed@),
            fill.declared == declared,
            fill.wf(),
            out.len() == declared,
            fill.filled <= payload.len(),
            forall|i: int|
                0 <= i < declared ==> #[trigger] out@[i] == (if i < fill.filled {
                    payload[i]
                } else {
                    0u8
                }),
            fill.stop is None ==> reader_pending(reader) == payload.skip(fill.filled as int),
            fill.stop is Some ==> fill.filled == payload.len() && fill.filled < declared,
        decreases
            (if fill.stop is None {
                1nat
            } else {
                0nat
            }),
            declared - fill.filled,
    {
        let outcome = read_into(&mut reader, &mut out, fill.filled);
        let report = report_of(outcome);
        fill = fill.absorb(report);
    }
    let shortfall = fill.into_diagnostic();
    Inflated { bytes: out, shortfall }
}

/// A payload as long as the declared size comes back unchanged.
pub proof fn lemma_exact_payload_unchanged(payload: Seq<u8>)
    ensures
        zero_padded(payload, payload.len()) == payload,
{
}

/// Whatever the payload, the output has the declared size, starts with the
/// payload's first bytes and is zero from where the payload ends.
pub proof fn lemma_zero_padded_shape(payload: Seq<u8>, size: nat)
    ensures
        zero_padded(payload, size).len() == size,
        zero_padded(payload, size).take(filled_len(payload.len(), size) as int) == payload.take(
            filled_len(payload.len(), size) as int,
        ),
        forall|i: int|
            filled_len(payload.len(), size) <= i < size ==> #[trigger] zero_padded(payload, size)[i]
                == 0u8,
{
}

} // verus!
