//! Status-code and discriminator vocabulary shared by host and plugin.

use vstd::prelude::*;

verus! {

/// Role tag of a context instance: the per-plugin singleton, a network
/// stream, or an HTTP exchange.
#[derive(Debug, Copy, Clone, PartialEq, Eq, Structural)]
pub enum ContextRole {
    Root,
    Stream,
    Http,
}

/// Per-direction / per-phase pipeline state of a context, transitioned by
/// the status code a callback returns. `resume_*` is meaningful only from
/// `Paused`.
#[derive(Debug, Copy, Clone, PartialEq, Eq, Structural)]
pub enum FlowState {
    Open,
    Paused,
    Closed,
}

/// A child context manufactured by the root context's factory logic:
/// either a stream filter or an HTTP filter.
pub enum ChildContext<S, H> {
    StreamContext(S),
    HttpContext(H),
}

impl<S, H> ChildContext<S, H> {
    /// The role tag under which the registry files this child.
    pub fn role(&self) -> (r: ContextRole)
        ensures
            r == (match self {
                ChildContext::StreamContext(_) => ContextRole::Stream,
                ChildContext::HttpContext(_) => ContextRole::Http,
            }),
    {
        match self {
            ChildContext::StreamContext(_) => ContextRole::Stream,
            ChildContext::HttpContext(_) => ContextRole::Http,
        }
    }
}

/// Severity levels for host-side log emission.
#[derive(Debug, Copy, Clone, PartialEq, Eq, Hash, Structural)]
pub enum LogLevel {
    Trace,
    Debug,
    Info,
    Warn,
    Error,
    Critical,
}

/// Continuation status for network-stream callbacks.
#[derive(Debug, Copy, Clone, PartialEq, Eq, Hash, Structural)]
pub enum FilterStatus {
    Continue,
    StopIteration,
}

/// Continuation status for HTTP header-phase callbacks.
#[derive(Debug, Copy, Clone, PartialEq, Eq, Hash, Structural)]
pub enum FilterHeadersStatus {
    Continue,
    StopIteration,
    ContinueAndEndStream,
    StopAllIterationAndBuffer,
    StopAllIterationAndWatermark,
}

/// Continuation status for metadata callbacks.
#[derive(Debug, Copy, Clone, PartialEq, Eq, Hash, Structural)]
pub enum FilterMetadataStatus {
    Continue,
}

/// Continuation status for HTTP trailer-phase callbacks.
#[derive(Debug, Copy, Clone, PartialEq, Eq, Hash, Structural)]
pub enum FilterTrailersStatus {
    Continue,
    StopIteration,
}

/// Continuation status for HTTP body-phase callbacks, governing whether the
/// host buffers the chunk for the plugin or forwards it immediately.
#[derive(Debug, Copy, Clone, PartialEq, Eq, Hash, Structural)]
pub enum FilterDataStatus {
    Continue,
    StopIterationAndBuffer,
    StopIterationAndWatermark,
    StopIterationNoBuffer,
}

/// Result kind reported by the host facade. The host's vocabulary is
/// versioned and may grow, so this set is marked non-exhaustive: callers
/// must keep a catch-all arm.
#[derive(Debug, Copy, Clone, PartialEq, Eq, Hash, Structural)]
#[non_exhaustive]
pub enum Status {
    Success,
    NotFound,
    BadArgument,
    SerializationFailure,
    ParseFailure,
    BadExpression,
    InvalidMemoryAccess,
    Empty,
    CasMismatch,
    ResultMismatch,
    InternalFailure,
    BrokenConnection,
    Unimplemented,
}

/// Identifies a lifecycle pipeline: one of the two HTTP phase pipelines or
/// one of the two raw stream directions.
#[derive(Debug, Copy, Clone, PartialEq, Eq, Hash, Structural)]
pub enum StreamType {
    HttpRequest,
    HttpResponse,
    Downstream,
    Upstream,
}

/// Discriminates the host-owned byte buffers reachable through the
/// buffer accessors.
#[derive(Debug, Copy, Clone, PartialEq, Eq, Hash, Structural)]
pub enum BufferType {
    HttpRequestBody,
    HttpResponseBody,
    DownstreamData,
    UpstreamData,
    HttpCallResponseBody,
    GrpcReceiveBuffer,
    VmConfiguration,
    PluginConfiguration,
    CallData,
}

/// Discriminates the host-owned (name, value) maps reachable through the
/// map accessors.
#[derive(Debug, Copy, Clone, PartialEq, Eq, Hash, Structural)]
pub enum MapType {
    HttpRequestHeaders,
    HttpRequestTrailers,
    HttpResponseHeaders,
    HttpResponseTrailers,
    GrpcReceiveInitialMetadata,
    GrpcReceiveTrailingMetadata,
    HttpCallResponseHeaders,
    HttpCallResponseTrailers,
}

/// Which side of a connection closed it.
#[derive(Debug, Copy, Clone, PartialEq, Eq, Hash, Structural)]
pub enum PeerType {
    Unknown,
    Local,
    Remote,
}

/// Kinds of host-side metrics a plugin may register.
#[derive(Debug, Copy, Clone, PartialEq, Eq, Hash, Structural)]
pub enum MetricType {
    Counter,
    Gauge,
    Histogram,
}

} // verus!
