//! Generic event delivery: the host-driven path that stages an event's
//! data, marks the receiving context's callback as executing, invokes the
//! plugin's callback, and applies the status it returned to the host's
//! own state machine.
//!
//! Each function answers with the callback's result, or with an absent
//! value when the event is not deliverable — the context is not live, a
//! callback is already running, the pipeline is paused or closed, or the
//! exchange was short-circuited — in which case the callback does not
//! fire and the host state is untouched. What a fired callback itself
//! does to the host is the plugin's business; only its gating and staging
//! are pinned here.

use vstd::prelude::*;

use crate::host::HostState;
use crate::traits::{Context, HttpContext, RootContext, StreamContext};
use crate::types::{
    ContextRole, FilterDataStatus, FilterHeadersStatus, FilterStatus, FilterTrailersStatus,
    FlowState, MapType, BufferType, PeerType, Status, StreamType,
};

verus! {

/// A lifecycle event can be delivered to this context right now.
pub open spec fn can_deliver(host: HostState, id: u32, role: ContextRole) -> bool {
    host.ctx_live(id) && host.ctx(id).role == role && host.current is None
}

/// An HTTP phase event can be delivered: additionally, the exchange is
/// not short-circuited, the request pipeline is open, and for a
/// response-phase event the response pipeline is open too.
pub open spec fn can_deliver_http(host: HostState, id: u32, response_phase: bool) -> bool {
    &&& can_deliver(host, id, ContextRole::Http)
    &&& !host.ctx(id).short_circuited
    &&& host.ctx(id).req_flow == FlowState::Open
    &&& (response_phase ==> host.ctx(id).resp_flow == FlowState::Open)
}

/// Instance startup: stages the instance configuration and delivers
/// `on_vm_start` to the root context.
pub fn deliver_vm_start<R: RootContext>(
    host: &mut HostState,
    root: &mut R,
    id: u32,
    vm_config: Vec<u8>,
) -> (r: Option<bool>)
    requires
        old(host).wf(),
    ensures
        final(host).wf(),
        r is Some <==> can_deliver(*old(host), id, ContextRole::Root),
        r is None ==> *final(host) == *old(host),
{
    let deliverable = match host.context_record(id) {
        Some(rec) => rec.live && matches!(rec.role, ContextRole::Root) && host.idle(),
        None => false,
    };
    if !deliverable {
        return None;
    }
    let size = vm_config.len();
    host.stage_vm_config(vm_config);
    let _ = host.begin_callback(id);
    let accepted = root.on_vm_start(host, size);
    host.end_callback();
    Some(accepted)
}

/// Plugin configuration: stages the payload and delivers `on_configure`
/// to the root context; `get_configuration` answers with exactly this
/// payload during the callback.
pub fn deliver_configure<R: RootContext>(
    host: &mut HostState,
    root: &mut R,
    id: u32,
    config: Vec<u8>,
) -> (r: Option<bool>)
    requires
        old(host).wf(),
    ensures
        final(host).wf(),
        r is Some <==> can_deliver(*old(host), id, ContextRole::Root),
        r is None ==> *final(host) == *old(host),
{
    let deliverable = match host.context_record(id) {
        Some(rec) => rec.live && matches!(rec.role, ContextRole::Root) && host.idle(),
        None => false,
    };
    if !deliverable {
        return None;
    }
    let size = config.len();
    host.stage_plugin_config(config);
    let _ = host.begin_callback(id);
    let accepted = root.on_configure(host, size);
    host.end_callback();
    Some(accepted)
}

/// One elapsed timer period for the root context.
pub fn deliver_tick<R: RootContext>(host: &mut HostState, root: &mut R, id: u32) -> (r: bool)
    requires
        old(host).wf(),
    ensures
        final(host).wf(),
        r <==> can_deliver(*old(host), id, ContextRole::Root),
        !r ==> *final(host) == *old(host),
{
    let deliverable = match host.context_record(id) {
        Some(rec) => rec.live && matches!(rec.role, ContextRole::Root) && host.idle(),
        None => false,
    };
    if !deliverable {
        return false;
    }
    let _ = host.begin_callback(id);
    root.on_tick(host);
    host.end_callback();
    true
}

/// A queue this root context registered gained data.
pub fn deliver_queue_ready<R: RootContext>(
    host: &mut HostState,
    root: &mut R,
    id: u32,
    queue_id: u32,
) -> (r: bool)
    requires
        old(host).wf(),
    ensures
        final(host).wf(),
        r <==> can_deliver(*old(host), id, ContextRole::Root),
        !r ==> *final(host) == *old(host),
{
    let deliverable = match host.context_record(id) {
        Some(rec) => rec.live && matches!(rec.role, ContextRole::Root) && host.idle(),
        None => false,
    };
    if !deliverable {
        return false;
    }
    let _ = host.begin_callback(id);
    root.on_queue_ready(host, queue_id);
    host.end_callback();
    true
}

/// Terminal event of the root context: after it the context is no longer
/// live.
pub fn deliver_root_log<R: RootContext>(host: &mut HostState, root: &mut R, id: u32) -> (r: bool)
    requires
        old(host).wf(),
    ensures
        final(host).wf(),
        r <==> can_deliver(*old(host), id, ContextRole::Root),
        !r ==> *final(host) == *old(host),
        r ==> !final(host).ctx_live(id),
{
    let deliverable = match host.context_record(id) {
        Some(rec) => rec.live && matches!(rec.role, ContextRole::Root) && host.idle(),
        None => false,
    };
    if !deliverable {
        return false;
    }
    let _ = host.begin_callback(id);
    root.on_log(host);
    host.end_callback();
    let live = host.context_live(id);
    if live {
        let _ = host.finish_context(id);
    }
    true
}

/// First event of a new connection.
pub fn deliver_new_connection<S: StreamContext>(
    host: &mut HostState,
    ctx: &mut S,
    id: u32,
) -> (r: Option<FilterStatus>)
    requires
        old(host).wf(),
    ensures
        final(host).wf(),
        r is Some <==> can_deliver(*old(host), id, ContextRole::Stream),
        r is None ==> *final(host) == *old(host),
{
    let deliverable = match host.context_record(id) {
        Some(rec) => rec.live && matches!(rec.role, ContextRole::Stream) && host.idle(),
        None => false,
    };
    if !deliverable {
        return None;
    }
    let _ = host.begin_callback(id);
    let status = ctx.on_new_connection(host);
    host.end_callback();
    Some(status)
}

/// One arriving chunk of stream data: appended to the host-owned buffer
/// of the direction, then delivered; the returned status transitions the
/// direction's pipeline state.
fn deliver_stream_data<S: StreamContext>(
    host: &mut HostState,
    ctx: &mut S,
    id: u32,
    downstream: bool,
    chunk: Vec<u8>,
    end_of_stream: bool,
) -> (r: Option<FilterStatus>)
    requires
        old(host).wf(),
    ensures
        final(host).wf(),
        r is None ==> *final(host) == *old(host),
        r is Some ==> can_deliver(*old(host), id, ContextRole::Stream),
{
    let dir = if downstream {
        StreamType::Downstream
    } else {
        StreamType::Upstream
    };
    let deliverable = match host.context_record(id) {
        Some(rec) => rec.live && matches!(rec.role, ContextRole::Stream) && host.idle() && !matches!(
            if downstream {
                rec.down_flow
            } else {
                rec.up_flow
            },
            FlowState::Closed,
        ),
        None => false,
    };
    if !deliverable {
        return None;
    }
    let size = chunk.len();
    let buffer = if downstream {
        BufferType::DownstreamData
    } else {
        BufferType::UpstreamData
    };
    let _ = host.append_buffer(buffer, chunk.as_slice());
    let _ = host.begin_callback(id);
    let status = if downstream {
        ctx.on_downstream_data(host, size, end_of_stream)
    } else {
        ctx.on_upstream_data(host, size, end_of_stream)
    };
    host.end_callback();
    let _ = host.apply_stream_status(id, dir, status);
    Some(status)
}

/// One arriving chunk of downstream data.
pub fn deliver_downstream_data<S: StreamContext>(
    host: &mut HostState,
    ctx: &mut S,
    id: u32,
    chunk: Vec<u8>,
    end_of_stream: bool,
) -> (r: Option<FilterStatus>)
    requires
        old(host).wf(),
    ensures
        final(host).wf(),
        r is None ==> *final(host) == *old(host),
        r is Some ==> can_deliver(*old(host), id, ContextRole::Stream),
{
    deliver_stream_data(host, ctx, id, true, chunk, end_of_stream)
}

/// One arriving chunk of upstream data.
pub fn deliver_upstream_data<S: StreamContext>(
    host: &mut HostState,
    ctx: &mut S,
    id: u32,
    chunk: Vec<u8>,
    end_of_stream: bool,
) -> (r: Option<FilterStatus>)
    requires
        old(host).wf(),
    ensures
        final(host).wf(),
        r is None ==> *final(host) == *old(host),
        r is Some ==> can_deliver(*old(host), id, ContextRole::Stream),
{
    deliver_stream_data(host, ctx, id, false, chunk, end_of_stream)
}

/// A per-direction closure notification; the direction's pipeline is
/// closed afterwards, without implying anything about the other one.
pub fn deliver_stream_close<S: StreamContext>(
    host: &mut HostState,
    ctx: &mut S,
    id: u32,
    downstream: bool,
    peer: PeerType,
) -> (r: bool)
    requires
        old(host).wf(),
    ensures
        final(host).wf(),
        !r ==> *final(host) == *old(host),
        r ==> can_deliver(*old(host), id, ContextRole::Stream),
{
    let deliverable = match host.context_record(id) {
        Some(rec) => rec.live && matches!(rec.role, ContextRole::Stream) && host.idle(),
        None => false,
    };
    if !deliverable {
        return false;
    }
    let _ = host.begin_callback(id);
    if downstream {
        ctx.on_downstream_close(host, peer);
    } else {
        ctx.on_upstream_close(host, peer);
    }
    host.end_callback();
    let dir = if downstream {
        StreamType::Downstream
    } else {
        StreamType::Upstream
    };
    let _ = host.close_stream_direction(id, dir, peer);
    true
}

/// Terminal event of a stream context, deliverable once both directions
/// have closed.
pub fn deliver_stream_log<S: StreamContext>(host: &mut HostState, ctx: &mut S, id: u32) -> (r:
    bool)
    requires
        old(host).wf(),
    ensures
        final(host).wf(),
        !r ==> *final(host) == *old(host),
        r ==> can_deliver(*old(host), id, ContextRole::Stream) && !final(host).ctx_live(id),
{
    let deliverable = match host.context_record(id) {
        Some(rec) => rec.live && matches!(rec.role, ContextRole::Stream) && host.idle()
            && matches!(rec.down_flow, FlowState::Closed) && matches!(
            rec.up_flow,
            FlowState::Closed,
        ),
        None => false,
    };
    if !deliverable {
        return false;
    }
    let _ = host.begin_callback(id);
    ctx.on_log(host);
    host.end_callback();
    let live = host.context_live(id);
    if live {
        let _ = host.finish_context(id);
    }
    true
}

/// The request header phase of an HTTP exchange: stages the headers and
/// delivers them; the returned status transitions the request pipeline.
pub fn deliver_http_request_headers<H: HttpContext>(
    host: &mut HostState,
    ctx: &mut H,
    id: u32,
    headers: Vec<(String, String)>,
) -> (r: Option<FilterHeadersStatus>)
    requires
        old(host).wf(),
    ensures
        final(host).wf(),
        r is Some <==> can_deliver_http(*old(host), id, false),
        r is None ==> *final(host) == *old(host),
{
    let deliverable = match host.context_record(id) {
        Some(rec) => rec.live && matches!(rec.role, ContextRole::Http) && host.idle()
            && !rec.short_circuited && matches!(rec.req_flow, FlowState::Open),
        None => false,
    };
    if !deliverable {
        return None;
    }
    let count = headers.len();
    let _ = host.put_map(MapType::HttpRequestHeaders, headers);
    let _ = host.begin_callback(id);
    let status = ctx.on_http_request_headers(host, count);
    host.end_callback();
    let _ = host.apply_headers_status(id, StreamType::HttpRequest, status);
    Some(status)
}

/// A request body chunk: appended to the host-owned request body, then
/// delivered; the returned status transitions the request pipeline.
pub fn deliver_http_request_body<H: HttpContext>(
    host: &mut HostState,
    ctx: &mut H,
    id: u32,
    chunk: Vec<u8>,
    end_of_stream: bool,
) -> (r: Option<FilterDataStatus>)
    requires
        old(host).wf(),
    ensures
        final(host).wf(),
        r is Some <==> can_deliver_http(*old(host), id, false),
        r is None ==> *final(host) == *old(host),
{
    let deliverable = match host.context_record(id) {
        Some(rec) => rec.live && matches!(rec.role, ContextRole::Http) && host.idle()
            && !rec.short_circuited && matches!(rec.req_flow, FlowState::Open),
        None => false,
    };
    if !deliverable {
        return None;
    }
    let size = chunk.len();
    let _ = host.append_buffer(BufferType::HttpRequestBody, chunk.as_slice());
    let _ = host.begin_callback(id);
    let status = ctx.on_http_request_body(host, size, end_of_stream);
    host.end_callback();
    let _ = host.apply_data_status(id, StreamType::HttpRequest, status);
    Some(status)
}

/// The request trailer phase.
pub fn deliver_http_request_trailers<H: HttpContext>(
    host: &mut HostState,
    ctx: &mut H,
    id: u32,
    trailers: Vec<(String, String)>,
) -> (r: Option<FilterTrailersStatus>)
    requires
        old(host).wf(),
    ensures
        final(host).wf(),
        r is Some <==> can_deliver_http(*old(host), id, false),
        r is None ==> *final(host) == *old(host),
{
    let deliverable = match host.context_record(id) {
        Some(rec) => rec.live && matches!(rec.role, ContextRole::Http) && host.idle()
            && !rec.short_circuited && matches!(rec.req_flow, FlowState::Open),
        None => false,
    };
    if !deliverable {
        return None;
    }
    let count = trailers.len();
    let _ = host.put_map(MapType::HttpRequestTrailers, trailers);
    let _ = host.begin_callback(id);
    let status = ctx.on_http_request_trailers(host, count);
    host.end_callback();
    let _ = host.apply_trailers_status(id, StreamType::HttpRequest, status);
    Some(status)
}

/// The response header phase; not deliverable while the request pipeline
/// is paused.
pub fn deliver_http_response_headers<H: HttpContext>(
    host: &mut HostState,
    ctx: &mut H,
    id: u32,
    headers: Vec<(String, String)>,
) -> (r: Option<FilterHeadersStatus>)
    requires
        old(host).wf(),
    ensures
        final(host).wf(),
        r is Some <==> can_deliver_http(*old(host), id, true),
        r is None ==> *final(host) == *old(host),
{
    let deliverable = match host.context_record(id) {
        Some(rec) => rec.live && matches!(rec.role, ContextRole::Http) && host.idle()
            && !rec.short_circuited && matches!(rec.req_flow, FlowState::Open) && matches!(
            rec.resp_flow,
            FlowState::Open,
        ),
        None => false,
    };
    if !deliverable {
        return None;
    }
    let count = headers.len();
    let _ = host.put_map(MapType::HttpResponseHeaders, headers);
    let _ = host.begin_callback(id);
    let status = ctx.on_http_response_headers(host, count);
    host.end_callback();
    let _ = host.apply_headers_status(id, StreamType::HttpResponse, status);
    Some(status)
}

/// A response body chunk; not deliverable while the request pipeline is
/// paused.
pub fn deliver_http_response_body<H: HttpContext>(
    host: &mut HostState,
    ctx: &mut H,
    id: u32,
    chunk: Vec<u8>,
    end_of_stream: bool,
) -> (r: Option<FilterDataStatus>)
    requires
        old(host).wf(),
    ensures
        final(host).wf(),
        r is Some <==> can_deliver_http(*old(host), id, true),
        r is None ==> *final(host) == *old(host),
{
    let deliverable = match host.context_record(id) {
        Some(rec) => rec.live && matches!(rec.role, ContextRole::Http) && host.idle()
            && !rec.short_circuited && matches!(rec.req_flow, FlowState::Open) && matches!(
            rec.resp_flow,
            FlowState::Open,
        ),
        None => false,
    };
    if !deliverable {
        return None;
    }
    let size = chunk.len();
    let _ = host.append_buffer(BufferType::HttpResponseBody, chunk.as_slice());
    let _ = host.begin_callback(id);
    let status = ctx.on_http_response_body(host, size, end_of_stream);
    host.end_callback();
    let _ = host.apply_data_status(id, StreamType::HttpResponse, status);
    Some(status)
}

/// The response trailer phase; not deliverable while the request pipeline
/// is paused.
pub fn deliver_http_response_trailers<H: HttpContext>(
    host: &mut HostState,
    ctx: &mut H,
    id: u32,
    trailers: Vec<(String, String)>,
) -> (r: Option<FilterTrailersStatus>)
    requires
        old(host).wf(),
    ensures
        final(host).wf(),
        r is Some <==> can_deliver_http(*old(host), id, true),
        r is None ==> *final(host) == *old(host),
{
    let deliverable = match host.context_record(id) {
        Some(rec) => rec.live && matches!(rec.role, ContextRole::Http) && host.idle()
            && !rec.short_circuited && matches!(rec.req_flow, FlowState::Open) && matches!(
            rec.resp_flow,
            FlowState::Open,
        ),
        None => false,
    };
    if !deliverable {
        return None;
    }
    let count = trailers.len();
    let _ = host.put_map(MapType::HttpResponseTrailers, trailers);
    let _ = host.begin_callback(id);
    let status = ctx.on_http_response_trailers(host, count);
    host.end_callback();
    let _ = host.apply_trailers_status(id, StreamType::HttpResponse, status);
    Some(status)
}

/// Terminal event of an HTTP context.
pub fn deliver_http_log<H: HttpContext>(host: &mut HostState, ctx: &mut H, id: u32) -> (r: bool)
    requires
        old(host).wf(),
    ensures
        final(host).wf(),
        !r ==> *final(host) == *old(host),
        r ==> can_deliver(*old(host), id, ContextRole::Http) && !final(host).ctx_live(id),
{
    let deliverable = match host.context_record(id) {
        Some(rec) => rec.live && matches!(rec.role, ContextRole::Http) && host.idle(),
        None => false,
    };
    if !deliverable {
        return false;
    }
    let _ = host.begin_callback(id);
    ctx.on_log(host);
    host.end_callback();
    let live = host.context_live(id);
    if live {
        let _ = host.finish_context(id);
    }
    true
}

/// Completion of an outbound call: fires only on the context that
/// dispatched the call's token, retires the token, and stages the
/// response so the call-response accessors answer with exactly it during
/// the callback.
pub fn deliver_http_call_response<C: Context>(
    host: &mut HostState,
    ctx: &mut C,
    id: u32,
    token: u32,
    headers: Vec<(String, String)>,
    body: Vec<u8>,
    trailers: Vec<(String, String)>,
) -> (r: Result<(), Status>)
    requires
        old(host).wf(),
    ensures
        final(host).wf(),
        r is Ok <==> old(host).token_outstanding(token) && old(host).token_owner(token) == id
            && old(host).ctx_live(id) && old(host).current is None,
        r is Err ==> *final(host) == *old(host),
{
    let owner = match host.call_owner(token) {
        Some(owner) => owner,
        None => {
            return Err(Status::NotFound);
        },
    };
    if owner != id {
        return Err(Status::BadArgument);
    }
    let deliverable = match host.context_record(id) {
        Some(rec) => rec.live && host.idle(),
        None => false,
    };
    if !deliverable {
        return Err(Status::BadArgument);
    }
    let num_headers = headers.len();
    let body_size = body.len();
    let num_trailers = trailers.len();
    let _ = host.complete_call(token, headers, body, trailers);
    let _ = host.begin_callback(id);
    ctx.on_http_call_response(host, token, num_headers, body_size, num_trailers);
    host.end_callback();
    Ok(())
}

/// Teardown query: asks the context whether it may be destroyed now.
pub fn deliver_done<C: Context>(host: &mut HostState, ctx: &mut C, id: u32) -> (r: Option<bool>)
    requires
        old(host).wf(),
    ensures
        final(host).wf(),
        r is None ==> *final(host) == *old(host),
        r is Some ==> old(host).ctx_live(id) && old(host).current is None,
{
    let deliverable = match host.context_record(id) {
        Some(rec) => rec.live && host.idle(),
        None => false,
    };
    if !deliverable {
        return None;
    }
    let _ = host.begin_callback(id);
    let may = ctx.on_done(host);
    host.end_callback();
    Some(may)
}

} // verus!
