//! The dispatcher: routes a named call to its handler and hands back the
//! handler's results in order.
//!
//! The registry of names is closed. A call that breaks the agreement between
//! host and guest (a name outside the registry, params that the handler's
//! contract does not admit) is a `Violation`: `try_dispatch` reports it and
//! does nothing else, and `dispatch` is only to be called without one.

use crate::codec::{frame_payload, inflate, is_shortfall_note, zero_padded};
use crate::decimal::{is_decimal, parse_decimal, parsed_size};
use crate::diagnostics::{Diagnostic, DiagnosticsSink};
use crate::param::{Param, ParamView};
use std::sync::Arc;
use vstd::prelude::*;
use vstd::string::*;
use vstd::utf8::*;

verus! {

/// The handlers of the registry, one per name.
#[derive(Debug, Clone, Copy, PartialEq, Eq)]
pub enum Handler {
    /// Writes one line to the diagnostics sink.
    PingDiagnostic,
    /// Gives the version string.
    VersionQuery,
    /// Gives the sentinel string of the self test.
    SelfTestProbe,
    /// Decodes a compressed buffer into a buffer of a declared size.
    Decompress,
}

/// How a call broke the agreement between host and guest.
#[derive(Debug, Clone, Copy, PartialEq, Eq)]
pub enum Violation {
    /// The name is not in the registry.
    UnknownName,
    /// The handler takes another number of params.
    ParamCount,
    /// A param has the wrong shape for its position.
    ParamShape,
    /// The declared size is not a size written in decimal digits.
    DeclaredSize,
}

/// The name under which `handler` is registered.
pub open spec fn handler_name(handler: Handler) -> Seq<char> {
    match handler {
        Handler::PingDiagnostic => "ping-diagnostic"@,
        Handler::VersionQuery => "version-query"@,
        Handler::SelfTestProbe => "self-test-probe"@,
        Handler::Decompress => "decompress"@,
    }
}

/// The handler registered under `name`, by exact match.
pub open spec fn resolve(name: Seq<char>) -> Option<Handler> {
    if name == "ping-diagnostic"@ {
        Some(Handler::PingDiagnostic)
    } else if name == "version-query"@ {
        Some(Handler::VersionQuery)
    } else if name == "self-test-probe"@ {
        Some(Handler::SelfTestProbe)
    } else if name == "decompress"@ {
        Some(Handler::Decompress)
    } else {
        None
    }
}

/// The version that `version-query` reports.
pub open spec fn version_text() -> Seq<char> {
    "v0.0.3"@
}

/// The sentinel that `self-test-probe` reports.
pub open spec fn probe_text() -> Seq<char> {
    "dummy_string"@
}

/// What each of `params` holds, in order.
pub open spec fn views(params: Seq<Param>) -> Seq<ParamView> {
    params.map_values(|p: Param| p@)
}

/// What is wrong with `params` as the input of `handler`, if anything.
/// Only `decompress` reads its params: it takes exactly two, a `Text` that
/// writes the declared size and a `Bytes` with the compressed stream.
pub open spec fn param_violation(handler: Handler, params: Seq<ParamView>) -> Option<Violation> {
    match handler {
        Handler::Decompress => {
            if params.len() != 2 {
                Some(Violation::ParamCount)
            } else if !(params[0] is Text && params[1] is Bytes) {
                Some(Violation::ParamShape)
            } else if parsed_size(params[0]->Text_0) is None {
                Some(Violation::DeclaredSize)
            } else {
                None
            }
        },
        _ => None,
    }
}

/// What is wrong with the call of `name` on `params`, if anything.
pub open spec fn violation(name: Seq<char>, params: Seq<ParamView>) -> Option<Violation> {
    match resolve(name) {
        None => Some(Violation::UnknownName),
        Some(handler) => param_violation(handler, params),
    }
}

/// The size that the params of a `decompress` call declare.
pub open spec fn declared_size(params: Seq<ParamView>) -> usize
    recommends
        param_violation(Handler::Decompress, params) is None,
{
    parsed_size(params[0]->Text_0)->0
}

/// The payload of the compressed stream in the params of a `decompress` call.
pub open spec fn declared_payload(params: Seq<ParamView>) -> Seq<u8>
    recommends
        param_violation(Handler::Decompress, params) is None,
{
    frame_payload(params[1]->Bytes_data)
}

/// The results of `handler` on `params`.
pub open spec fn results_of(handler: Handler, params: Seq<ParamView>) -> Seq<ParamView>
    recommends
        param_violation(handler, params) is None,
{
    match handler {
        Handler::PingDiagnostic => seq![],
        Handler::VersionQuery => seq![ParamView::Text(version_text())],
        Handler::SelfTestProbe => seq![ParamView::Text(probe_text())],
        Handler::Decompress => seq![
            ParamView::Bytes {
                data: zero_padded(declared_payload(params), declared_size(params) as nat),
                shared: true,
            },
        ],
    }
}

/// `after` is the sink's record once `handler` has run on `params` over a
/// sink that held `before`: the ping adds its line, a decompression that
/// fell short adds its note, and nothing else is added or changed.
pub open spec fn recorded(
    handler: Handler,
    params: Seq<ParamView>,
    before: Seq<Diagnostic>,
    after: Seq<Diagnostic>,
) -> bool
    recommends
        param_violation(handler, params) is None,
{
    match handler {
        Handler::PingDiagnostic => after == before.push(Diagnostic::Ping),
        Handler::VersionQuery | Handler::SelfTestProbe => after == before,
        Handler::Decompress => {
            if declared_payload(params).len() < declared_size(params) {
                &&& after.len() == before.len() + 1
                &&& after.drop_last() == before
                &&& is_shortfall_note(
                    Some(after.last()),
                    declared_payload(params).len(),
                    declared_size(params),
                )
            } else {
                after == before
            }
        },
    }
}

/// The results have the shape that `handler` declares: none for the ping,
/// one `Text` for the version and the probe, one shared `Bytes` of the
/// declared size for a decompression.
pub open spec fn has_declared_shape(
    handler: Handler,
    params: Seq<ParamView>,
    results: Seq<ParamView>,
) -> bool {
    match handler {
        Handler::PingDiagnostic => results.len() == 0,
        Handler::VersionQuery | Handler::SelfTestProbe => results.len() == 1 && results[0] is Text,
        Handler::Decompress => {
            &&& results.len() == 1
            &&& results[0] matches ParamView::Bytes { data, shared }
            &&& shared
            &&& data.len() == declared_size(params)
        },
    }
}

/// Whether two texts are the same, character by character.
pub fn same_text(a: &str, b: &str) -> (same: bool)
    ensures
        same == (a@ == b@),
{
    let x = a.as_bytes();
    let y = b.as_bytes();
    proof {
        encode_utf8_decode_utf8(a@);
        encode_utf8_decode_utf8(b@);
    }
    if x.len() != y.len() {
        return false;
    }
    let n = x.len();
    let mut i: usize = 0;
    while i < n
        invariant
            i <= n,
            n == x@.len(),
            n == y@.len(),
            x@ == encode_utf8(a@),
            y@ == encode_utf8(b@),
            forall|j: int| 0 <= j < i ==> x@[j] == y@[j],
        decreases n - i,
    {
        if x[i] != y[i] {
            return false;
        }
        i = i + 1;
    }
    assert(x@ =~= y@);
    true
}

impl Handler {
    /// The name under which this handler is registered.
    pub fn name(&self) -> (name: &'static str)
        ensures
            name@ == handler_name(*self),
    {
        match self {
            Handler::PingDiagnostic => "ping-diagnostic",
            Handler::VersionQuery => "version-query",
            Handler::SelfTestProbe => "self-test-probe",
            Handler::Decompress => "decompress",
        }
    }

    /// The handler registered under `name`; `None` for every other string.
    pub fn from_name(name: &str) -> (handler: Option<Handler>)
        ensures
            handler == resolve(name@),
    {
        if same_text(name, "ping-diagnostic") {
            Some(Handler::PingDiagnostic)
        } else if same_text(name, "version-query") {
            Some(Handler::VersionQuery)
        } else if same_text(name, "self-test-probe") {
            Some(Handler::SelfTestProbe)
        } else if same_text(name, "decompress") {
            Some(Handler::Decompress)
        } else {
            None
        }
    }

    /// Checks `params` against this handler's contract.
    pub fn check(&self, params: &Vec<Param>) -> (found: Option<Violation>)
        ensures
            found == param_violation(*self, views(params@)),
    {
        match self {
            Handler::Decompress => {
                if params.len() != 2 {
                    return Some(Violation::ParamCount);
                }
                if !(params[0].is_text() && params[1].is_bytes()) {
                    return Some(Violation::ParamShape);
                }
                match parse_decimal(params[0].as_text()) {
                    Some(_) => None,
                    None => Some(Violation::DeclaredSize),
                }
            },
            _ => None,
        }
    }
}

/// Routes calls to the handlers of the registry and records diagnostics in
/// the sink it was made with. It keeps no other state.
#[derive(Debug)]
pub struct Dispatcher {
    sink: DiagnosticsSink,
}

impl Dispatcher {
    /// What the sink holds.
    pub closed spec fn log(&self) -> Seq<Diagnostic> {
        self.sink@
    }

    /// A dispatcher that records into `sink`.
    pub fn new(sink: DiagnosticsSink) -> (dispatcher: Dispatcher)
        ensures
            dispatcher.log() == sink@,
    {
        Dispatcher { sink }
    }

    /// The sink with what it has recorded.
    pub fn sink(&self) -> (sink: &DiagnosticsSink)
        ensures
            sink@ == self.log(),
    {
        &self.sink
    }

    /// Gives the sink back.
    pub fn into_sink(self) -> (sink: DiagnosticsSink)
        ensures
            sink@ == self.log(),
    {
        self.sink
    }

    /// Hands out what was recorded so far and leaves the sink empty.
    pub fn take_diagnostics(&mut self) -> (entries: Vec<Diagnostic>)
        ensures
            entries@ == old(self).log(),
            final(self).log() == Seq::<Diagnostic>::empty(),
    {
        self.sink.take()
    }

    /// Runs `handler` on params that its contract admits.
    pub fn run(&mut self, handler: Handler, params: Vec<Param>) -> (results: Vec<Param>)
        requires
            param_violation(handler, views(params@)) is None,
        ensures
            views(results@) == results_of(handler, views(params@)),
            recorded(handler, views(params@), old(self).log(), final(self).log()),
    {
        match handler {
            Handler::PingDiagnostic => {
                self.sink.record(Diagnostic::Ping);
                Vec::new()
            },
            Handler::VersionQuery => {
                let mut results: Vec<Param> = Vec::new();
                results.push(Param::from_text("v0.0.3".to_owned()));
                results
            },
            Handler::SelfTestProbe => {
                let mut results: Vec<Param> = Vec::new();
                results.push(Param::from_text("dummy_string".to_owned()));
                results
            },
            Handler::Decompress => {
                let declared = match parse_decimal(params[0].as_text()) {
                    Some(declared) => declared,
                    None => {
                        proof {
                            assert(false);
                        }
                        0
                    },
                };
                let inflated = inflate(params[1].as_byte_slice(), declared);
                let ghost before = self.sink@;
                match inflated.shortfall {
                    Some(note) => {
                        self.sink.record(note);
                        assert(self.sink@.drop_last() =~= before);
                    },
                    None => {},
                }
                let mut results: Vec<Param> = Vec::new();
                results.push(Param::from_shared_bytes(Arc::new(inflated.bytes)));
                results
            },
        }
    }

    /// Dispatches the call of `name` on `params`, or reports how the call
    /// breaks the agreement. A call that does is not run: nothing is
    /// recorded for it.
    pub fn try_dispatch(&mut self, name: &str, params: Vec<Param>) -> (r: Result<
        Vec<Param>,
        Violation,
    >)
        ensures
            match r {
                Ok(results) => {
                    &&& violation(name@, views(params@)) is None
                    &&& views(results@) == results_of(resolve(name@)->0, views(params@))
                    &&& recorded(
                        resolve(name@)->0,
                        views(params@),
                        old(self).log(),
                        final(self).log(),
                    )
                },
                Err(v) => {
                    &&& violation(name@, views(params@)) == Some(v)
                    &&& final(self).log() == old(self).log()
                },
            },
    {
        match Handler::from_name(name) {
            None => Err(Violation::UnknownName),
            Some(handler) => match handler.check(&params) {
                Some(v) => Err(v),
                None => Ok(self.run(handler, params)),
            },
        }
    }

    /// Dispatches the call of `name` on `params` and returns the handler's
    /// results in order.
    pub fn dispatch(&mut self, name: &str, params: Vec<Param>) -> (results: Vec<Param>)
        requires
            violation(name@, views(params@)) is None,
        ensures
            views(results@) == results_of(resolve(name@)->0, views(params@)),
            recorded(resolve(name@)->0, views(params@), old(self).log(), final(self).log()),
    {
        match self.try_dispatch(name, params) {
            Ok(results) => results,
            Err(_) => {
                proof {
                    assert(false);
                }
                Vec::new()
            },
        }
    }
}

/// Every handler is found under its own name.
pub proof fn lemma_resolve_own_name(handler: Handler)
    ensures
        resolve(handler_name(handler)) == Some(handler),
{
    reveal_strlit("ping-diagnostic");
    reveal_strlit("version-query");
    reveal_strlit("self-test-probe");
    reveal_strlit("decompress");
    let ping = "ping-diagnostic"@;
    let probe = "self-test-probe"@;
    assert(ping[0] == 'p' && probe[0] == 's');
    assert(ping.len() == 15 && probe.len() == 15);
    assert("version-query"@.len() == 13);
    assert("decompress"@.len() == 10);
}

/// A name resolves to a handler exactly when it is that handler's name, so
/// no two handlers share a name and at most one handler matches a call.
pub proof fn lemma_resolve_exact(name: Seq<char>, handler: Handler)
    ensures
        resolve(name) == Some(handler) <==> name == handler_name(handler),
{
    lemma_resolve_own_name(handler);
}

/// A name that is no handler's name is a violation, whatever the params.
pub proof fn lemma_unknown_name_is_violation(name: Seq<char>, params: Seq<ParamView>)
    requires
        forall|handler: Handler| name != #[trigger] handler_name(handler),
    ensures
        violation(name, params) == Some(Violation::UnknownName),
{
    assert(name != handler_name(Handler::PingDiagnostic));
    assert(name != handler_name(Handler::VersionQuery));
    assert(name != handler_name(Handler::SelfTestProbe));
    assert(name != handler_name(Handler::Decompress));
}

/// On params that a handler admits, its results have the shape it declares.
pub proof fn lemma_results_have_declared_shape(handler: Handler, params: Seq<ParamView>)
    requires
        param_violation(handler, params) is None,
    ensures
        has_declared_shape(handler, params, results_of(handler, params)),
{
}

/// `version-query` admits every params and always gives the one `Text`
/// holding the version.
pub proof fn lemma_version_ignores_params(params: Seq<ParamView>)
    ensures
        violation(handler_name(Handler::VersionQuery), params) is None,
        results_of(Handler::VersionQuery, params) == seq![ParamView::Text(version_text())],
{
    lemma_resolve_own_name(Handler::VersionQuery);
}

/// `self-test-probe` admits every params and always gives the one `Text`
/// holding the sentinel.
pub proof fn lemma_probe_ignores_params(params: Seq<ParamView>)
    ensures
        violation(handler_name(Handler::SelfTestProbe), params) is None,
        results_of(Handler::SelfTestProbe, params) == seq![ParamView::Text(probe_text())],
{
    lemma_resolve_own_name(Handler::SelfTestProbe);
}

/// `ping-diagnostic` admits every params and gives no results.
pub proof fn lemma_ping_ignores_params(params: Seq<ParamView>)
    ensures
        violation(handler_name(Handler::PingDiagnostic), params) is None,
        results_of(Handler::PingDiagnostic, params) == Seq::<ParamView>::empty(),
{
    lemma_resolve_own_name(Handler::PingDiagnostic);
}

/// Decompressing a stream whose payload is `content`, with the declared
/// size equal to its length, gives `content` back and records nothing.
pub proof fn lemma_decompress_round_trip(
    size_text: Seq<char>,
    compressed: Seq<u8>,
    shared: bool,
    content: Seq<u8>,
    before: Seq<Diagnostic>,
    after: Seq<Diagnostic>,
)
    requires
        frame_payload(compressed) == content,
        parsed_size(size_text) == Some(content.len() as usize),
        content.len() <= usize::MAX,
        recorded(
            Handler::Decompress,
            seq![ParamView::Text(size_text), ParamView::Bytes { data: compressed, shared }],
            before,
            after,
        ),
    ensures
        violation(
            handler_name(Handler::Decompress),
            seq![ParamView::Text(size_text), ParamView::Bytes { data: compressed, shared }],
        ) is None,
        results_of(
            Handler::Decompress,
            seq![ParamView::Text(size_text), ParamView::Bytes { data: compressed, shared }],
        ) == seq![ParamView::Bytes { data: content, shared: true }],
        after == before,
{
    lemma_resolve_own_name(Handler::Decompress);
    assert(zero_padded(content, content.len()) =~= content);
}

/// Decompressing a stream whose payload is shorter than the declared size
/// still gives exactly the declared number of bytes: the payload, then
/// zeros. One note on the shortfall is recorded after what the sink held.
pub proof fn lemma_decompress_short_stream(
    size_text: Seq<char>,
    compressed: Seq<u8>,
    shared: bool,
    before: Seq<Diagnostic>,
    after: Seq<Diagnostic>,
)
    requires
        parsed_size(size_text) is Some,
        frame_payload(compressed).len() < parsed_size(size_text)->0,
        recorded(
            Handler::Decompress,
            seq![ParamView::Text(size_text), ParamView::Bytes { data: compressed, shared }],
            before,
            after,
        ),
    ensures
        violation(
            handler_name(Handler::Decompress),
            seq![ParamView::Text(size_text), ParamView::Bytes { data: compressed, shared }],
        ) is None,
        results_of(
            Handler::Decompress,
            seq![ParamView::Text(size_text), ParamView::Bytes { data: compressed, shared }],
        ) == seq![
            ParamView::Bytes {
                data: frame_payload(compressed) + Seq::new(
                    (parsed_size(size_text)->0 - frame_payload(compressed).len()) as nat,
                    |i: int| 0u8,
                ),
                shared: true,
            },
        ],
        after.len() == before.len() + 1,
        after.drop_last() == before,
        after.last() is ShortDecode,
{
    lemma_resolve_own_name(Handler::Decompress);
    let size = parsed_size(size_text)->0;
    let payload = frame_payload(compressed);
    assert(zero_padded(payload, size as nat) =~= payload + Seq::new(
        (size - payload.len()) as nat,
        |i: int| 0u8,
    ));
}

/// A declared size that is not a non-empty run of decimal digits (a word, a
/// negative number, a number with a sign or a blank) is a violation.
pub proof fn lemma_bad_size_is_violation(size_text: Seq<char>, compressed: Seq<u8>, shared: bool)
    requires
        !is_decimal(size_text),
    ensures
        violation(
            handler_name(Handler::Decompress),
            seq![ParamView::Text(size_text), ParamView::Bytes { data: compressed, shared }],
        ) == Some(Violation::DeclaredSize),
{
    lemma_resolve_own_name(Handler::Decompress);
}

/// Text that starts with a minus sign is no decimal text.
pub proof fn lemma_negative_is_not_decimal(size_text: Seq<char>)
    requires
        size_text.len() > 0,
        size_text[0] == '-',
    ensures
        !is_decimal(size_text),
{
}

/// Repeating `version-query` changes nothing: the sink holds what it held,
/// and the results do not depend on what it holds.
pub proof fn lemma_version_repeats(
    params: Seq<ParamView>,
    log0: Seq<Diagnostic>,
    log1: Seq<Diagnostic>,
    log2: Seq<Diagnostic>,
)
    requires
        recorded(Handler::VersionQuery, params, log0, log1),
        recorded(Handler::VersionQuery, params, log1, log2),
    ensures
        log1 == log0,
        log2 == log0,
{
}

/// Repeating `ping-diagnostic` gives the same empty results each time and
/// adds the same one line each time; nothing recorded before is changed.
pub proof fn lemma_ping_repeats(
    params: Seq<ParamView>,
    log0: Seq<Diagnostic>,
    log1: Seq<Diagnostic>,
    log2: Seq<Diagnostic>,
)
    requires
        recorded(Handler::PingDiagnostic, params, log0, log1),
        recorded(Handler::PingDiagnostic, params, log1, log2),
    ensures
        log1 == log0.push(Diagnostic::Ping),
        log2 == log0.push(Diagnostic::Ping).push(Diagnostic::Ping),
{
}

} // verus!
