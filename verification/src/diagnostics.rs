//! The diagnostics sink: where handlers record what went wrong without
//! failing the call.

use vstd::prelude::*;

verus! {

/// Why decoding stopped before the output was full.
#[derive(Debug, Clone, PartialEq)]
pub enum StopCause {
    /// The compressed stream ended.
    EndOfStream,
    /// The decoder reported an error, with its message.
    Decoder(String),
}

/// One entry of the sink.
#[derive(Debug, Clone, PartialEq)]
pub enum Diagnostic {
    /// The line that the ping handler writes.
    Ping,
    /// Decompression filled only `filled` of `declared` bytes.
    ShortDecode { declared: usize, filled: usize, cause: StopCause },
}

/// A sink that keeps what was recorded, in order.
#[derive(Debug)]
pub struct DiagnosticsSink {
    entries: Vec<Diagnostic>,
}

impl View for DiagnosticsSink {
    type V = Seq<Diagnostic>;

    closed spec fn view(&self) -> Seq<Diagnostic> {
        self.entries@
    }
}

impl DiagnosticsSink {
    /// An empty sink.
    pub fn new() -> (sink: DiagnosticsSink)
        ensures
            sink@ == Seq::<Diagnostic>::empty(),
    {
        DiagnosticsSink { entries: Vec::new() }
    }

    /// Appends `entry`; everything recorded before stays in place.
    pub fn record(&mut self, entry: Diagnostic)
        ensures
            final(self)@ == old(self)@.push(entry),
    {
        self.entries.push(entry);
    }

    /// How many entries were recorded.
    pub fn len(&self) -> (n: usize)
        ensures
            n == self@.len(),
    {
        self.entries.len()
    }

    /// The entries, oldest first.
    pub fn entries(&self) -> (entries: &[Diagnostic])
        ensures
            entries@ == self@,
    {
        self.entries.as_slice()
    }

    /// Hands out everything recorded so far and leaves the sink empty.
    pub fn take(&mut self) -> (entries: Vec<Diagnostic>)
        ensures
            entries@ == old(self)@,
            final(self)@ == Seq::<Diagnostic>::empty(),
    {
        let mut entries: Vec<Diagnostic> = Vec::new();
        std::mem::swap(&mut self.entries, &mut entries);
        entries
    }
}

} // verus!
