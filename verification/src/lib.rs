//! Request-tracing middleware: wraps a request-processing component, plans one
//! trace span per request, annotates it with request metadata, and finalizes it
//! with outcome-dependent attributes, leaving the wrapped component's results
//! and errors untouched.
//!
//! The middleware's decisions are computed here as plain values: a metadata
//! snapshot of the request ([`meta`]) and a plan of span commands ([`span`]).
//! The surrounding server glue interprets the plan against the tracing SDK,
//! forwards readiness checks verbatim (no span is planned for those), and hands
//! the wrapped component's response or error back unchanged.

pub mod forwarded;
pub mod headers;
pub mod meta;
pub mod span;

use vstd::prelude::*;

use crate::meta::RequestMeta;
use crate::span::{start_command, SpanCommand};

verus! {

/// A layer that decorates an inner request-processing component with tracing,
/// under a fixed operation name.
#[derive(Clone, Debug)]
pub struct DDTraceLayer {
    pub operation: String,
}

impl DDTraceLayer {
    pub fn new(operation: String) -> (r: DDTraceLayer)
        ensures
            r.operation@ == operation@,
    {
        DDTraceLayer { operation }
    }

    /// Decorate `inner` with tracing under this layer's operation name.
    pub fn layer<S>(&self, inner: S) -> (r: DDTrace<S>)
        ensures
            r.operation@ == self.operation@,
            r.inner == inner,
    {
        DDTrace::new(inner, self.operation.as_str())
    }
}

/// The tracing middleware: an inner request-processing component and the
/// operation name its spans are traced under. Readiness checks pass to the
/// inner component untouched; handling a request means taking the metadata
/// snapshot, opening a span, invoking the inner component, and finalizing the
/// span by the outcome.
#[derive(Clone, Debug)]
pub struct DDTrace<S> {
    pub inner: S,
    pub operation: String,
}

impl<S> DDTrace<S> {
    pub fn new(inner: S, operation: &str) -> (r: Self)
        ensures
            r.operation@ == operation@,
            r.inner == inner,
    {
        DDTrace { inner, operation: operation.to_owned() }
    }

    /// The command that opens a request's span: named after the request path,
    /// under a tracer scoped to this middleware's operation name, carrying the
    /// metadata snapshot as attributes.
    pub fn span_start(&self, meta: &RequestMeta) -> (c: SpanCommand)
        ensures
            c@ == start_command(self.operation@, meta@),
    {
        crate::span::span_start(self.operation.as_str(), meta)
    }
}

} // verus!
