//! Spans that follow a message: a span is linked to the trace context that
//! came with the message, and is the ambient span while the message is
//! worked on.
use opentelemetry::global::BoxedSpan;
use opentelemetry::propagation::TextMapPropagator;
use opentelemetry::trace::{
    Link, SpanContext, SpanId, TraceContextExt, TraceFlags, TraceId, TraceState, Tracer,
};
use opentelemetry::{Context, ContextGuard};
use opentelemetry_sdk::propagation::TraceContextPropagator;
use std::collections::HashMap;
use std::str::FromStr;
use vstd::prelude::*;

verus! {

/// A started span, as the global tracer hands it out.
#[verifier::external_type_specification]
#[verifier::external_body]
pub struct ExBoxedSpan(BoxedSpan);

/// The token of an attached context. Dropping it puts back the context
/// that was ambient before.
#[verifier::external_type_specification]
#[verifier::external_body]
pub struct ExContextGuard(ContextGuard);

/// What identifies a trace and one span in it.
#[derive(Debug, Clone, PartialEq, Eq)]
pub struct TraceContext {
    /// The trace. Zero is no trace.
    pub trace_id: u128,
    /// The span within the trace. Zero is no span.
    pub span_id: u64,
    /// The trace flags; the lowest bit says that the trace is sampled.
    pub flags: u8,
    /// Whether the context came from another process.
    pub remote: bool,
    /// What the tracing systems on the way have added, as one header
    /// value.
    pub trace_state: String,
}

/// A trace context as a value.
pub struct TraceContextView {
    pub trace_id: u128,
    pub span_id: u64,
    pub flags: u8,
    pub remote: bool,
    pub trace_state: Seq<char>,
}

impl TraceContextView {
    /// A context names a span only if neither identifier is zero.
    pub open spec fn is_valid(self) -> bool {
        self.trace_id != 0 && self.span_id != 0
    }
}

impl View for TraceContext {
    type V = TraceContextView;

    open spec fn view(&self) -> TraceContextView {
        TraceContextView {
            trace_id: self.trace_id,
            span_id: self.span_id,
            flags: self.flags,
            remote: self.remote,
            trace_state: self.trace_state@,
        }
    }
}

impl TraceContext {
    /// Whether the context names a span.
    pub fn is_valid(&self) -> (valid: bool)
        ensures
            valid == self@.is_valid(),
    {
        self.trace_id != 0 && self.span_id != 0
    }
}

/// The metadata of a message, from which a trace context is read: keys
/// and values in the order given. Of two entries with one key the later
/// counts.
#[derive(Debug, Clone, PartialEq, Eq)]
pub struct Carrier {
    pub entries: Vec<(String, String)>,
}

impl View for Carrier {
    type V = Seq<(Seq<char>, Seq<char>)>;

    open spec fn view(&self) -> Seq<(Seq<char>, Seq<char>)> {
        self.entries@.map_values(|entry: (String, String)| (entry.0@, entry.1@))
    }
}

/// A span with what it was started from.
pub struct Span {
    name: &'static str,
    links: Vec<TraceContext>,
    handle: BoxedSpan,
}

/// The trace contexts of a list, as values.
pub open spec fn contexts(links: Seq<TraceContext>) -> Seq<TraceContextView> {
    links.map_values(|link: TraceContext| link@)
}

impl Span {
    /// The name of the span.
    pub closed spec fn name_view(self) -> Seq<char> {
        self.name@
    }

    /// The contexts that the span is linked to.
    pub closed spec fn linked(self) -> Seq<TraceContextView> {
        contexts(self.links@)
    }

    /// The name of the span.
    pub fn name(&self) -> (name: &'static str)
        ensures
            name@ == self.name_view(),
    {
        self.name
    }

    /// The contexts that the span is linked to.
    pub fn links(&self) -> (links: &Vec<TraceContext>)
        ensures
            contexts(links@) == self.linked(),
    {
        &self.links
    }

    /// The span itself.
    pub closed spec fn handle(self) -> BoxedSpan {
        self.handle
    }

    /// Gives up the record for the span itself.
    pub fn into_handle(self) -> (handle: BoxedSpan)
        ensures
            handle == self.handle(),
    {
        self.handle
    }
}

/// The context that the W3C propagator reads from a carrier: what
/// `TraceContextPropagator::extract_with_context` puts into an empty
/// context. Where the carrier holds no well-formed `traceparent`, it is the
/// context of no span.
pub uninterp spec fn extracted_context(carrier: Seq<(Seq<char>, Seq<char>)>) -> TraceContextView;

/// Runs the W3C propagator on the carrier, from an empty context, and
/// reads the span context that it found, field by field. The result is a
/// function of the carrier alone and is known by its name only.
#[verifier::external_body]
fn extract_context(carrier: &Carrier) -> (context: TraceContext)
    ensures
        context@ == extracted_context(carrier@),
{
    let entries: HashMap<String, String> = carrier.entries.iter().cloned().collect();
    let extracted = TraceContextPropagator::new().extract_with_context(&Context::new(), &entries);
    let span = extracted.span();
    let found = span.span_context();
    TraceContext {
        trace_id: u128::from_be_bytes(found.trace_id().to_bytes()),
        span_id: u64::from_be_bytes(found.span_id().to_bytes()),
        flags: found.trace_flags().to_u8(),
        remote: found.is_remote(),
        trace_state: found.trace_state().header(),
    }
}

/// Starts a span of the given name on the global tracer of the given name,
/// linked to the given contexts: `global::tracer`, `span_builder`,
/// `with_links` and `start`. `with_links` leaves out a link whose context
/// names no span. Nothing of the started span can be read back, so nothing
/// is claimed of it.
#[verifier::external_body]
fn start_span(tracer_name: &'static str, span_name: &'static str, links: &Vec<TraceContext>) -> BoxedSpan {
    let tracer = opentelemetry::global::tracer(tracer_name);
    let links = links.iter().map(|link| Link::with_context(SpanContext::new(
        TraceId::from_bytes(link.trace_id.to_be_bytes()),
        SpanId::from_bytes(link.span_id.to_be_bytes()),
        TraceFlags::new(link.flags),
        link.remote,
        TraceState::from_str(&link.trace_state).unwrap_or_default(),
    ))).collect();
    tracer.span_builder(span_name).with_links(links).start(&tracer)
}

/// Makes the span the ambient one of this thread:
/// `Context::current_with_span` and `attach`.
#[verifier::external_body]
fn attach(span: BoxedSpan) -> ContextGuard {
    Context::current_with_span(span).attach()
}

/// Drops the guard, which puts back the context that was ambient when it
/// was made.
#[verifier::external_body]
fn detach(guard: ContextGuard) {
    drop(guard)
}

/// The contexts that a span gets linked to: the one read from the carrier,
/// if there is a carrier and it names a span.
pub open spec fn links_from(from: Option<Seq<(Seq<char>, Seq<char>)>>) -> Seq<TraceContextView> {
    match from {
        Some(carrier) => if extracted_context(carrier).is_valid() {
            seq![extracted_context(carrier)]
        } else {
            Seq::empty()
        },
        None => Seq::empty(),
    }
}

/// A carrier that names a span gives exactly one link, to the context
/// read from it; no carrier gives none.
pub proof fn links_follow_the_carrier(carrier: Seq<(Seq<char>, Seq<char>)>)
    requires
        extracted_context(carrier).is_valid(),
    ensures
        links_from(Some(carrier)) == seq![extracted_context(carrier)],
        links_from(Some(carrier)).len() == 1,
        links_from(None).len() == 0,
{
}

/// The carrier of a message as a value, if the message has one.
pub open spec fn carrier_view(from: Option<&Carrier>) -> Option<Seq<(Seq<char>, Seq<char>)>> {
    match from {
        Some(carrier) => Some(carrier@),
        None => None,
    }
}

/// Starts a span. With a carrier, the span is linked to the trace context
/// read from it: linked, not made its child, so the span begins a trace of
/// its own and still tells where it came from. A carrier that names no
/// span leaves no link.
pub fn get_span(tracer_name: &'static str, span_name: &'static str, from: Option<&Carrier>) -> (span: Span)
    ensures
        span.name_view() == span_name@,
        span.linked() == links_from(carrier_view(from)),
{
    let mut links: Vec<TraceContext> = Vec::new();
    match from {
        Some(carrier) => {
            let remote = extract_context(carrier);
            if remote.is_valid() {
                links.push(remote);
            }
        },
        None => {},
    }
    proof {
        assert(contexts(links@) =~= links_from(carrier_view(from)));
    }
    let handle = start_span(tracer_name, span_name, &links);
    Span { name: span_name, links, handle }
}

/// Runs `block` inside a span: the span is started, made ambient, and no
/// longer ambient when `block` has returned, with whatever result. What
/// `block` returns is returned.
pub fn execute_in_span<F, R>(
    tracer_name: &'static str,
    span_name: &'static str,
    from: Option<&Carrier>,
    block: F,
) -> (result: R) where F: FnOnce() -> R
    requires
        block.requires(()),
    ensures
        block.ensures((), result),
{
    let span = get_span(tracer_name, span_name, from);
    let guard = attach(span.into_handle());
    let result = block();
    detach(guard);
    result
}

} // verus!
