//! The callback surface a plugin implements.
//!
//! Every context kind shares the base capability set of `Context`; the
//! three role traits add the lifecycle events of the plugin root, of a
//! raw network stream and of an HTTP exchange. Capability methods
//! delegate to the host facade and carry its contracts; lifecycle
//! callbacks have the documented default behaviour, stated as
//! `default_ensures`, and a plugin overrides the ones it cares about.
//! Every method takes the host facade explicitly: the host drives
//! everything, and a callback may only use its capabilities while it is
//! the one being delivered.

use vstd::prelude::*;

use crate::data::{buffer_update_frame, buffer_window, first_map_value, map_update_frame,
    map_without, owned_entries, owned_path};
use crate::flow::with_flow;
use crate::host::{set_shared_step, CtxRec, HostState};
use crate::calls::dispatch_step;
use crate::queues::{dequeue_step, enqueue_step, queue_item_of};
use crate::types::{
    BufferType, ContextRole, FilterDataStatus, FilterHeadersStatus, FilterStatus,
    FilterTrailersStatus, FlowState, MapType, PeerType, Status, StreamType,
};
use crate::Bytes;

verus! {

/// The capability set shared by every context kind.
pub trait Context {
    /// Wall-clock time from the host clock, milliseconds since its epoch.
    /// The host clock is assumed always available while a callback runs.
    fn get_current_time(&self, host: &HostState) -> (t: u64)
        requires
            host.wf(),
            host.cur_live(),
        ensures
            t == host.now_ms,
    {
        match host.time() {
            Ok(t) => t,
            Err(_) => 0,
        }
    }

    /// Reads a host-exposed attribute; absence is distinct from presence
    /// with an empty value.
    fn get_property(&self, host: &HostState, path: Vec<&str>) -> (r: Option<Bytes>)
        requires
            host.wf(),
            host.cur_live(),
        ensures
            match r {
                Some(b) => host.prop_exists(path.deep_view()) && b@ == host.prop_value(
                    path.deep_view(),
                ),
                None => !host.prop_exists(path.deep_view()),
            },
    {
        let owned = owned_path(&path);
        match host.get_property(&owned) {
            Ok(v) => v,
            Err(_) => None,
        }
    }

    /// Writes a host-exposed attribute; an absent value removes it.
    fn set_property(&self, host: &mut HostState, path: Vec<&str>, value: Option<&[u8]>)
        requires
            old(host).wf(),
            old(host).cur_live(),
        ensures
            final(host).wf(),
            match value {
                Some(b) => final(host).prop_exists(path.deep_view()) && final(host).prop_value(
                    path.deep_view(),
                ) == b@,
                None => !final(host).prop_exists(path.deep_view()),
            },
            forall|p2: Seq<Seq<char>>|
                p2 != path.deep_view() ==> #[trigger] final(host).prop_exists(p2) == old(host).prop_exists(p2),
            forall|p2: Seq<Seq<char>>|
                p2 != path.deep_view() && old(host).prop_exists(p2) ==> #[trigger] final(host).prop_value(p2) == old(host).prop_value(p2),
            HostState::same_contexts(*old(host), *final(host)),
            HostState::same_shared(*old(host), *final(host)),
            HostState::same_queues(*old(host), *final(host)),
            HostState::same_calls(*old(host), *final(host)),
            HostState::same_staging(*old(host), *final(host)),
            HostState::same_ident(*old(host), *final(host)),
    {
        let owned = owned_path(&path);
        let _ = host.set_property(&owned, value);
    }

    /// Reads a shared key: its value and version, or twice absent for a
    /// key never written.
    fn get_shared_data(&self, host: &HostState, key: &str) -> (r: (Option<Bytes>, Option<u32>))
        requires
            host.wf(),
            host.cur_live(),
        ensures
            r.0.deep_view() == host.shared_pair(key@).0,
            r.1 == host.shared_pair(key@).1,
    {
        let owned = key.to_owned();
        match host.get_shared_data(&owned) {
            Ok(p) => p,
            Err(_) => (None, None),
        }
    }

    /// Writes a shared key, optionally conditioned on an expected version;
    /// a stale expectation is reported as the distinguished mismatch so
    /// the caller can re-read and retry.
    fn set_shared_data(
        &self,
        host: &mut HostState,
        key: &str,
        value: Option<&[u8]>,
        cas: Option<u32>,
    ) -> (r: Result<(), Status>)
        requires
            old(host).wf(),
        ensures
            final(host).wf(),
            set_shared_step(*old(host), *final(host), key@, value.deep_view(), cas, r),
    {
        let owned = key.to_owned();
        host.set_shared_data(&owned, value, cas)
    }

    /// Registers a shared queue under this instance; a name already
    /// registered re-binds to the existing, usable id.
    fn register_shared_queue(&self, host: &mut HostState, name: &str) -> (r: u32)
        requires
            old(host).wf(),
            old(host).cur_live(),
            old(host).next_queue_id < u32::MAX,
        ensures
            final(host).wf(),
            final(host).queue_registered(old(host).vm_id@, name@),
            final(host).queue_id_for(old(host).vm_id@, name@) == r,
            final(host).queue_exists(r),
            old(host).queue_registered(old(host).vm_id@, name@) ==> *final(host) == *old(host)
                && r == old(host).queue_id_for(old(host).vm_id@, name@),
            !old(host).queue_registered(old(host).vm_id@, name@) ==> r == old(host).next_queue_id
                && final(host).queue_items(r) == Seq::<Seq<u8>>::empty(),
        {
        let owned = name.to_owned();
        match host.register_shared_queue(&owned) {
            Ok(id) => id,
            Err(_) => 0,
        }
    }

    /// Resolves a queue registered by any instance; an unknown pair is a
    /// value-level absence.
    fn resolve_shared_queue(&self, host: &HostState, vm_id: &str, name: &str) -> (r: Option<u32>)
        requires
            host.wf(),
            host.cur_live(),
        ensures
            match r {
                Some(id) => host.queue_registered(vm_id@, name@) && id == host.queue_id_for(
                    vm_id@,
                    name@,
                ),
                None => !host.queue_registered(vm_id@, name@),
            },
    {
        let owned_vm = vm_id.to_owned();
        let owned_name = name.to_owned();
        match host.resolve_shared_queue(&owned_vm, &owned_name) {
            Ok(v) => v,
            Err(_) => None,
        }
    }

    /// Takes the oldest entry of a queue; empty is distinct from the
    /// unknown-id failure.
    fn dequeue_shared_queue(&self, host: &mut HostState, queue_id: u32) -> (r: Result<
        Option<Bytes>,
        Status,
    >)
        requires
            old(host).wf(),
        ensures
            final(host).wf(),
            dequeue_step(*old(host), *final(host), queue_id, r),
    {
        host.dequeue_shared_queue(queue_id)
    }

    /// Appends an entry at the tail of a queue.
    fn enqueue_shared_queue(&self, host: &mut HostState, queue_id: u32, value: Option<&[u8]>) -> (r:
        Result<(), Status>)
        requires
            old(host).wf(),
        ensures
            final(host).wf(),
            enqueue_step(*old(host), *final(host), queue_id, queue_item_of(value.deep_view()), r),
    {
        host.enqueue_shared_queue(queue_id, value)
    }

    /// Asks the host to perform an outbound call on this context's behalf.
    /// Never blocks: the token returned is the only correlation key for
    /// the completion that arrives later on this same context. The
    /// headers, body and trailers are forwarded to the transport, and the
    /// timeout is advisory to the host.
    fn dispatch_http_call(
        &self,
        host: &mut HostState,
        upstream: &str,
        _headers: Vec<(&str, &str)>,
        _body: Option<&[u8]>,
        _trailers: Vec<(&str, &str)>,
        timeout_ms: u64,
    ) -> (r: Result<u32, Status>)
        requires
            old(host).wf(),
        ensures
            final(host).wf(),
            dispatch_step(*old(host), *final(host), upstream@, r),
    {
        host.dispatch_call(upstream, timeout_ms)
    }

    /// Completion callback of an outbound call. The response is read
    /// through the call-response accessors, valid only during this
    /// callback: exactly one call response is current when it fires.
    fn on_http_call_response(
        &mut self,
        host: &mut HostState,
        _token_id: u32,
        _num_headers: usize,
        _body_size: usize,
        _num_trailers: usize,
    )
        requires
            old(host).wf(),
        ensures
            final(host).wf(),
        default_ensures
            *final(host) == *old(host),
    {
    }

    /// The headers of the current call response.
    fn get_http_call_response_headers(&self, host: &HostState) -> (r: Vec<(String, String)>)
        requires
            host.wf(),
            host.cur_live(),
            host.call_response_active,
        ensures
            r.deep_view() == host.map_of(MapType::HttpCallResponseHeaders),
    {
        match host.get_map(MapType::HttpCallResponseHeaders) {
            Ok(v) => v,
            Err(_) => Vec::new(),
        }
    }

    /// A window of the current call response's body.
    fn get_http_call_response_body(&self, host: &HostState, start: usize, max_size: usize) -> (r:
        Option<Bytes>)
        requires
            host.wf(),
            host.cur_live(),
            host.call_response_active,
        ensures
            r.deep_view() == buffer_window(
                host.buffer_of(BufferType::HttpCallResponseBody),
                start as int,
                max_size as int,
            ),
    {
        match host.get_buffer(BufferType::HttpCallResponseBody, start, max_size) {
            Ok(v) => v,
            Err(_) => None,
        }
    }

    /// The trailers of the current call response.
    fn get_http_call_response_trailers(&self, host: &HostState) -> (r: Vec<(String, String)>)
        requires
            host.wf(),
            host.cur_live(),
            host.call_response_active,
        ensures
            r.deep_view() == host.map_of(MapType::HttpCallResponseTrailers),
    {
        match host.get_map(MapType::HttpCallResponseTrailers) {
            Ok(v) => v,
            Err(_) => Vec::new(),
        }
    }

    /// The host asks whether this context may be torn down now; answering
    /// false defers destruction and the host asks again later.
    fn on_done(&mut self, host: &mut HostState) -> (r: bool)
        requires
            old(host).wf(),
        ensures
            final(host).wf(),
        default_ensures
            r == true,
            *final(host) == *old(host),
    {
        true
    }

    /// Plugin-initiated signal that this context is done and the host may
    /// proceed to tear it down; irreversible.
    fn done(&self, host: &mut HostState)
        requires
            old(host).wf(),
            old(host).cur_live(),
        ensures
            final(host).wf(),
            final(host).ctx(old(host).cur_id()) == (CtxRec {
                done_requested: true,
                ..old(host).ctx(old(host).cur_id())
            }),
            forall|id2: u32|
                id2 != old(host).cur_id() && old(host).ctx_exists(id2) ==> #[trigger] final(host).ctx(id2) == old(host).ctx(id2),
            final(host).current == old(host).current,
            HostState::same_shared(*old(host), *final(host)),
            HostState::same_queues(*old(host), *final(host)),
            HostState::same_calls(*old(host), *final(host)),
            HostState::same_props(*old(host), *final(host)),
            HostState::same_staging(*old(host), *final(host)),
            HostState::same_ident(*old(host), *final(host)),
    {
        let _ = host.signal_done();
    }
}

/// The per-plugin-instance singleton: configuration and startup events,
/// the periodic timer, queue-readiness notifications, and the factory
/// boundary for child contexts.
pub trait RootContext: Context {
    /// Instance-level startup; answering false reports fatal
    /// configuration and the host does not proceed.
    fn on_vm_start(&mut self, host: &mut HostState, _vm_configuration_size: usize) -> (r: bool)
        requires
            old(host).wf(),
        ensures
            final(host).wf(),
        default_ensures
            r == true,
            *final(host) == *old(host),
    {
        true
    }

    /// Plugin-level (re)configuration; answering false rejects it.
    fn on_configure(&mut self, host: &mut HostState, _plugin_configuration_size: usize) -> (r:
        bool)
        requires
            old(host).wf(),
        ensures
            final(host).wf(),
        default_ensures
            r == true,
            *final(host) == *old(host),
    {
        true
    }

    /// The raw configuration payload, readable during the two events
    /// above.
    fn get_configuration(&self, host: &HostState) -> (r: Option<Bytes>)
        requires
            host.wf(),
            host.cur_live(),
        ensures
            r.deep_view() == host.active_config.deep_view(),
    {
        match host.get_configuration() {
            Ok(v) => v,
            Err(_) => None,
        }
    }

    /// (Re)arms the periodic timer; zero disables it. At most one timer
    /// per root context: a new period replaces the old.
    fn set_tick_period(&self, host: &mut HostState, period_ms: u64)
        requires
            old(host).wf(),
            old(host).cur_live(),
            old(host).ctx(old(host).cur_id()).role == ContextRole::Root,
        ensures
            final(host).wf(),
            final(host).ctx(old(host).cur_id()) == (CtxRec {
                tick_ms: period_ms,
                ..old(host).ctx(old(host).cur_id())
            }),
            forall|id2: u32|
                id2 != old(host).cur_id() && old(host).ctx_exists(id2) ==> #[trigger] final(host).ctx(id2) == old(host).ctx(id2),
            final(host).current == old(host).current,
            HostState::same_shared(*old(host), *final(host)),
            HostState::same_queues(*old(host), *final(host)),
            HostState::same_calls(*old(host), *final(host)),
            HostState::same_props(*old(host), *final(host)),
            HostState::same_staging(*old(host), *final(host)),
            HostState::same_ident(*old(host), *final(host)),
    {
        let _ = host.set_tick_period(period_ms);
    }

    /// One elapsed timer period; deliveries never overlap for one root.
    fn on_tick(&mut self, host: &mut HostState)
        requires
            old(host).wf(),
        ensures
            final(host).wf(),
        default_ensures
            *final(host) == *old(host),
    {
    }

    /// A queue registered by this root gained data.
    fn on_queue_ready(&mut self, host: &mut HostState, _queue_id: u32)
        requires
            old(host).wf(),
        ensures
            final(host).wf(),
        default_ensures
            *final(host) == *old(host),
    {
    }

    /// Terminal telemetry hook before destruction.
    fn on_log(&mut self, host: &mut HostState)
        requires
            old(host).wf(),
        ensures
            final(host).wf(),
        default_ensures
            *final(host) == *old(host),
    {
    }
}

/// One instance per network connection: raw byte-stream events for both
/// directions, with on-demand access to the host-owned data buffers.
pub trait StreamContext: Context {
    /// First event of the connection.
    fn on_new_connection(&mut self, host: &mut HostState) -> (r: FilterStatus)
        requires
            old(host).wf(),
        ensures
            final(host).wf(),
        default_ensures
            r == FilterStatus::Continue,
            *final(host) == *old(host),
    {
        FilterStatus::Continue
    }

    /// One arriving chunk of downstream data; `Continue` releases it,
    /// `StopIteration` asks the host to hold it.
    fn on_downstream_data(
        &mut self,
        host: &mut HostState,
        _data_size: usize,
        _end_of_stream: bool,
    ) -> (r: FilterStatus)
        requires
            old(host).wf(),
        ensures
            final(host).wf(),
        default_ensures
            r == FilterStatus::Continue,
            *final(host) == *old(host),
    {
        FilterStatus::Continue
    }

    /// A window of the downstream buffer, clipped to what is available.
    fn get_downstream_data(&self, host: &HostState, start: usize, max_size: usize) -> (r: Option<
        Bytes,
    >)
        requires
            host.wf(),
            host.cur_live(),
        ensures
            r.deep_view() == buffer_window(
                host.buffer_of(BufferType::DownstreamData),
                start as int,
                max_size as int,
            ),
    {
        match host.get_buffer(BufferType::DownstreamData, start, max_size) {
            Ok(v) => v,
            Err(_) => None,
        }
    }

    /// Overwrites a range of the downstream buffer; the replacement must
    /// match the addressed size and lie within the buffer.
    fn set_downstream_data(&self, host: &mut HostState, start: usize, size: usize, value: &[u8])
        requires
            old(host).wf(),
            old(host).cur_live(),
            value@.len() == size,
            start + size <= old(host).buffer_of(BufferType::DownstreamData).len(),
        ensures
            final(host).wf(),
            final(host).buffer_of(BufferType::DownstreamData) == old(host).buffer_of(
                BufferType::DownstreamData,
            ).subrange(0, start as int) + value@ + old(host).buffer_of(
                BufferType::DownstreamData,
            ).subrange(start + size, old(host).buffer_of(BufferType::DownstreamData).len() as int),
            forall|t2: BufferType|
                t2 != BufferType::DownstreamData ==> #[trigger] final(host).buffer_of(t2) == old(host).buffer_of(t2),
            forall|t2: MapType| #[trigger] final(host).map_of(t2) == old(host).map_of(t2),
            HostState::same_contexts(*old(host), *final(host)),
            HostState::same_shared(*old(host), *final(host)),
            HostState::same_queues(*old(host), *final(host)),
            HostState::same_calls(*old(host), *final(host)),
            HostState::same_props(*old(host), *final(host)),
            HostState::same_ident(*old(host), *final(host)),
    {
        let _ = host.set_buffer(BufferType::DownstreamData, start, size, value);
    }

    /// The downstream direction reported closure.
    fn on_downstream_close(&mut self, host: &mut HostState, _peer_type: PeerType)
        requires
            old(host).wf(),
        ensures
            final(host).wf(),
        default_ensures
            *final(host) == *old(host),
    {
    }

    /// One arriving chunk of upstream data.
    fn on_upstream_data(
        &mut self,
        host: &mut HostState,
        _data_size: usize,
        _end_of_stream: bool,
    ) -> (r: FilterStatus)
        requires
            old(host).wf(),
        ensures
            final(host).wf(),
        default_ensures
            r == FilterStatus::Continue,
            *final(host) == *old(host),
    {
        FilterStatus::Continue
    }

    /// A window of the upstream buffer, clipped to what is available.
    fn get_upstream_data(&self, host: &HostState, start: usize, max_size: usize) -> (r: Option<
        Bytes,
    >)
        requires
            host.wf(),
            host.cur_live(),
        ensures
            r.deep_view() == buffer_window(
                host.buffer_of(BufferType::UpstreamData),
                start as int,
                max_size as int,
            ),
    {
        match host.get_buffer(BufferType::UpstreamData, start, max_size) {
            Ok(v) => v,
            Err(_) => None,
        }
    }

    /// Overwrites a range of the upstream buffer.
    fn set_upstream_data(&self, host: &mut HostState, start: usize, size: usize, value: &[u8])
        requires
            old(host).wf(),
            old(host).cur_live(),
            value@.len() == size,
            start + size <= old(host).buffer_of(BufferType::UpstreamData).len(),
        ensures
            final(host).wf(),
            final(host).buffer_of(BufferType::UpstreamData) == old(host).buffer_of(
                BufferType::UpstreamData,
            ).subrange(0, start as int) + value@ + old(host).buffer_of(
                BufferType::UpstreamData,
            ).subrange(start + size, old(host).buffer_of(BufferType::UpstreamData).len() as int),
            forall|t2: BufferType|
                t2 != BufferType::UpstreamData ==> #[trigger] final(host).buffer_of(t2) == old(host).buffer_of(t2),
            forall|t2: MapType| #[trigger] final(host).map_of(t2) == old(host).map_of(t2),
            HostState::same_contexts(*old(host), *final(host)),
            HostState::same_shared(*old(host), *final(host)),
            HostState::same_queues(*old(host), *final(host)),
            HostState::same_calls(*old(host), *final(host)),
            HostState::same_props(*old(host), *final(host)),
            HostState::same_ident(*old(host), *final(host)),
    {
        let _ = host.set_buffer(BufferType::UpstreamData, start, size, value);
    }

    /// The upstream direction reported closure.
    fn on_upstream_close(&mut self, host: &mut HostState, _peer_type: PeerType)
        requires
            old(host).wf(),
        ensures
            final(host).wf(),
        default_ensures
            *final(host) == *old(host),
    {
    }

    /// Terminal hook, after both directions are closed.
    fn on_log(&mut self, host: &mut HostState)
        requires
            old(host).wf(),
        ensures
            final(host).wf(),
        default_ensures
            *final(host) == *old(host),
    {
    }
}


/// One instance per HTTP exchange: phase events for the request and the
/// response pipelines, mutation of their headers and trailers, pause and
/// resume, and short-circuiting with a synthetic response.
pub trait HttpContext: Context {

    /// The request header phase began; the status controls how the host
    /// goes on with the headers in flight.
    fn on_http_request_headers(&mut self, host: &mut HostState, _num_headers: usize) -> (r:
        FilterHeadersStatus)
        requires
            old(host).wf(),
        ensures
            final(host).wf(),
        default_ensures
            r == FilterHeadersStatus::Continue,
            *final(host) == *old(host),
    {
        FilterHeadersStatus::Continue
    }

    /// All request headers, order and duplicates preserved.
    fn get_http_request_headers(&self, host: &HostState) -> (r: Vec<(String, String)>)
        requires
            host.wf(),
            host.cur_live(),
        ensures
            r.deep_view() == host.map_of(MapType::HttpRequestHeaders),
    {
        match host.get_map(MapType::HttpRequestHeaders) {
            Ok(v) => v,
            Err(_) => Vec::new(),
        }
    }

    /// Replaces the whole request header map.
    fn set_http_request_headers(&self, host: &mut HostState, headers: Vec<(&str, &str)>)
        requires
            old(host).wf(),
            old(host).cur_live(),
        ensures
            final(host).wf(),
            final(host).map_of(MapType::HttpRequestHeaders) == headers.deep_view(),
            map_update_frame(*old(host), *final(host), MapType::HttpRequestHeaders),
    {
        let owned = owned_entries(&headers);
        let _ = host.set_map(MapType::HttpRequestHeaders, owned);
    }

    /// The first request header filed under a name.
    fn get_http_request_header(&self, host: &HostState, name: &str) -> (r: Option<String>)
        requires
            host.wf(),
            host.cur_live(),
        ensures
            r.deep_view() == first_map_value(host.map_of(MapType::HttpRequestHeaders), name@),
    {
        let owned = name.to_owned();
        match host.get_map_value(MapType::HttpRequestHeaders, &owned) {
            Ok(v) => v,
            Err(_) => None,
        }
    }

    /// Sets the request header of a name: existing entries of that name
    /// leave, a present value is appended, an absent value only removes.
    fn set_http_request_header(&self, host: &mut HostState, name: &str, value: Option<&str>)
        requires
            old(host).wf(),
            old(host).cur_live(),
        ensures
            final(host).wf(),
            final(host).map_of(MapType::HttpRequestHeaders) == map_without(
                old(host).map_of(MapType::HttpRequestHeaders),
                name@,
            ) + (match value {
                Some(v) => seq![(name@, v@)],
                None => Seq::<(Seq<char>, Seq<char>)>::empty(),
            }),
            map_update_frame(*old(host), *final(host), MapType::HttpRequestHeaders),
    {
        let owned = name.to_owned();
        let _ = host.set_map_value(MapType::HttpRequestHeaders, &owned, value);
    }

    /// Appends a request header, preserving duplicates: never overwrites
    /// an existing value of the same name.
    fn add_http_request_header(&self, host: &mut HostState, name: &str, value: &str)
        requires
            old(host).wf(),
            old(host).cur_live(),
        ensures
            final(host).wf(),
            final(host).map_of(MapType::HttpRequestHeaders) == old(host).map_of(MapType::HttpRequestHeaders).push(
                (name@, value@),
            ),
            map_update_frame(*old(host), *final(host), MapType::HttpRequestHeaders),
    {
        let owned_name = name.to_owned();
        let owned_value = value.to_owned();
        let _ = host.add_map_value(MapType::HttpRequestHeaders, &owned_name, &owned_value);
    }

    /// One arriving chunk of the request body; the status governs whether
    /// the host buffers it for the plugin or forwards it.
    fn on_http_request_body(
        &mut self,
        host: &mut HostState,
        _body_size: usize,
        _end_of_stream: bool,
    ) -> (r: FilterDataStatus)
        requires
            old(host).wf(),
        ensures
            final(host).wf(),
        default_ensures
            r == FilterDataStatus::Continue,
            *final(host) == *old(host),
    {
        FilterDataStatus::Continue
    }

    /// A window of the request body, clipped to what is available.
    fn get_http_request_body(&self, host: &HostState, start: usize, max_size: usize) -> (r: Option<
        Bytes,
    >)
        requires
            host.wf(),
            host.cur_live(),
        ensures
            r.deep_view() == buffer_window(
                host.buffer_of(BufferType::HttpRequestBody),
                start as int,
                max_size as int,
            ),
    {
        match host.get_buffer(BufferType::HttpRequestBody, start, max_size) {
            Ok(v) => v,
            Err(_) => None,
        }
    }

    /// Overwrites a range of the request body.
    fn set_http_request_body(&self, host: &mut HostState, start: usize, size: usize, value: &[u8])
        requires
            old(host).wf(),
            old(host).cur_live(),
            value@.len() == size,
            start + size <= old(host).buffer_of(BufferType::HttpRequestBody).len(),
        ensures
            final(host).wf(),
            final(host).buffer_of(BufferType::HttpRequestBody) == old(host).buffer_of(
                BufferType::HttpRequestBody,
            ).subrange(0, start as int) + value@ + old(host).buffer_of(BufferType::HttpRequestBody).subrange(
                start + size,
                old(host).buffer_of(BufferType::HttpRequestBody).len() as int,
            ),
            buffer_update_frame(*old(host), *final(host), BufferType::HttpRequestBody),
    {
        let _ = host.set_buffer(BufferType::HttpRequestBody, start, size, value);
    }

    /// The request trailer phase began.
    fn on_http_request_trailers(&mut self, host: &mut HostState, _num_trailers: usize) -> (r:
        FilterTrailersStatus)
        requires
            old(host).wf(),
        ensures
            final(host).wf(),
        default_ensures
            r == FilterTrailersStatus::Continue,
            *final(host) == *old(host),
    {
        FilterTrailersStatus::Continue
    }

    /// All request trailers, order and duplicates preserved.
    fn get_http_request_trailers(&self, host: &HostState) -> (r: Vec<(String, String)>)
        requires
            host.wf(),
            host.cur_live(),
        ensures
            r.deep_view() == host.map_of(MapType::HttpRequestTrailers),
    {
        match host.get_map(MapType::HttpRequestTrailers) {
            Ok(v) => v,
            Err(_) => Vec::new(),
        }
    }

    /// Replaces the whole request trailer map.
    fn set_http_request_trailers(&self, host: &mut HostState, trailers: Vec<(&str, &str)>)
        requires
            old(host).wf(),
            old(host).cur_live(),
        ensures
            final(host).wf(),
            final(host).map_of(MapType::HttpRequestTrailers) == trailers.deep_view(),
            map_update_frame(*old(host), *final(host), MapType::HttpRequestTrailers),
    {
        let owned = owned_entries(&trailers);
        let _ = host.set_map(MapType::HttpRequestTrailers, owned);
    }

    /// The first request trailer filed under a name.
    fn get_http_request_trailer(&self, host: &HostState, name: &str) -> (r: Option<String>)
        requires
            host.wf(),
            host.cur_live(),
        ensures
            r.deep_view() == first_map_value(host.map_of(MapType::HttpRequestTrailers), name@),
    {
        let owned = name.to_owned();
        match host.get_map_value(MapType::HttpRequestTrailers, &owned) {
            Ok(v) => v,
            Err(_) => None,
        }
    }

    /// Sets the request trailer of a name, as the header form does.
    fn set_http_request_trailer(&self, host: &mut HostState, name: &str, value: Option<&str>)
        requires
            old(host).wf(),
            old(host).cur_live(),
        ensures
            final(host).wf(),
            final(host).map_of(MapType::HttpRequestTrailers) == map_without(
                old(host).map_of(MapType::HttpRequestTrailers),
                name@,
            ) + (match value {
                Some(v) => seq![(name@, v@)],
                None => Seq::<(Seq<char>, Seq<char>)>::empty(),
            }),
            map_update_frame(*old(host), *final(host), MapType::HttpRequestTrailers),
    {
        let owned = name.to_owned();
        let _ = host.set_map_value(MapType::HttpRequestTrailers, &owned, value);
    }

    /// Appends a request trailer, preserving duplicates.
    fn add_http_request_trailer(&self, host: &mut HostState, name: &str, value: &str)
        requires
            old(host).wf(),
            old(host).cur_live(),
        ensures
            final(host).wf(),
            final(host).map_of(MapType::HttpRequestTrailers) == old(host).map_of(MapType::HttpRequestTrailers).push(
                (name@, value@),
            ),
            map_update_frame(*old(host), *final(host), MapType::HttpRequestTrailers),
    {
        let owned_name = name.to_owned();
        let owned_value = value.to_owned();
        let _ = host.add_map_value(MapType::HttpRequestTrailers, &owned_name, &owned_value);
    }

    /// Re-enters the paused request pipeline from where it stopped; a
    /// no-op when nothing is paused.
    fn resume_http_request(&self, host: &mut HostState)
        requires
            old(host).wf(),
            old(host).cur_live(),
            old(host).ctx(old(host).cur_id()).role == ContextRole::Http,
        ensures
            final(host).wf(),
            old(host).flow_of(old(host).cur_id(), StreamType::HttpRequest) == FlowState::Paused ==> final(host).ctx(old(host).cur_id()) == with_flow(
                old(host).ctx(old(host).cur_id()),
                StreamType::HttpRequest,
                FlowState::Open,
            ),
            old(host).flow_of(old(host).cur_id(), StreamType::HttpRequest) != FlowState::Paused
                ==> *final(host) == *old(host),
            forall|id2: u32|
                id2 != old(host).cur_id() && old(host).ctx_exists(id2) ==> #[trigger] final(host).ctx(id2) == old(host).ctx(id2),
            final(host).current == old(host).current,
            HostState::same_shared(*old(host), *final(host)),
            HostState::same_queues(*old(host), *final(host)),
            HostState::same_calls(*old(host), *final(host)),
            HostState::same_props(*old(host), *final(host)),
            HostState::same_staging(*old(host), *final(host)),
            HostState::same_ident(*old(host), *final(host)),
    {
        let _ = host.resume_http_request();
    }

    /// The response header phase began; the status controls how the host
    /// goes on with the headers in flight.
    fn on_http_response_headers(&mut self, host: &mut HostState, _num_headers: usize) -> (r:
        FilterHeadersStatus)
        requires
            old(host).wf(),
        ensures
            final(host).wf(),
        default_ensures
            r == FilterHeadersStatus::Continue,
            *final(host) == *old(host),
    {
        FilterHeadersStatus::Continue
    }

    /// All response headers, order and duplicates preserved.
    fn get_http_response_headers(&self, host: &HostState) -> (r: Vec<(String, String)>)
        requires
            host.wf(),
            host.cur_live(),
        ensures
            r.deep_view() == host.map_of(MapType::HttpResponseHeaders),
    {
        match host.get_map(MapType::HttpResponseHeaders) {
            Ok(v) => v,
            Err(_) => Vec::new(),
        }
    }

    /// Replaces the whole response header map.
    fn set_http_response_headers(&self, host: &mut HostState, headers: Vec<(&str, &str)>)
        requires
            old(host).wf(),
            old(host).cur_live(),
        ensures
            final(host).wf(),
            final(host).map_of(MapType::HttpResponseHeaders) == headers.deep_view(),
            map_update_frame(*old(host), *final(host), MapType::HttpResponseHeaders),
    {
        let owned = owned_entries(&headers);
        let _ = host.set_map(MapType::HttpResponseHeaders, owned);
    }

    /// The first response header filed under a name.
    fn get_http_response_header(&self, host: &HostState, name: &str) -> (r: Option<String>)
        requires
            host.wf(),
            host.cur_live(),
        ensures
            r.deep_view() == first_map_value(host.map_of(MapType::HttpResponseHeaders), name@),
    {
        let owned = name.to_owned();
        match host.get_map_value(MapType::HttpResponseHeaders, &owned) {
            Ok(v) => v,
            Err(_) => None,
        }
    }

    /// Sets the response header of a name: existing entries of that name
    /// leave, a present value is appended, an absent value only removes.
    fn set_http_response_header(&self, host: &mut HostState, name: &str, value: Option<&str>)
        requires
            old(host).wf(),
            old(host).cur_live(),
        ensures
            final(host).wf(),
            final(host).map_of(MapType::HttpResponseHeaders) == map_without(
                old(host).map_of(MapType::HttpResponseHeaders),
                name@,
            ) + (match value {
                Some(v) => seq![(name@, v@)],
                None => Seq::<(Seq<char>, Seq<char>)>::empty(),
            }),
            map_update_frame(*old(host), *final(host), MapType::HttpResponseHeaders),
    {
        let owned = name.to_owned();
        let _ = host.set_map_value(MapType::HttpResponseHeaders, &owned, value);
    }

    /// Appends a response header, preserving duplicates: never overwrites
    /// an existing value of the same name.
    fn add_http_response_header(&self, host: &mut HostState, name: &str, value: &str)
        requires
            old(host).wf(),
            old(host).cur_live(),
        ensures
            final(host).wf(),
            final(host).map_of(MapType::HttpResponseHeaders) == old(host).map_of(MapType::HttpResponseHeaders).push(
                (name@, value@),
            ),
            map_update_frame(*old(host), *final(host), MapType::HttpResponseHeaders),
    {
        let owned_name = name.to_owned();
        let owned_value = value.to_owned();
        let _ = host.add_map_value(MapType::HttpResponseHeaders, &owned_name, &owned_value);
    }

    /// One arriving chunk of the response body; the status governs whether
    /// the host buffers it for the plugin or forwards it.
    fn on_http_response_body(
        &mut self,
        host: &mut HostState,
        _body_size: usize,
        _end_of_stream: bool,
    ) -> (r: FilterDataStatus)
        requires
            old(host).wf(),
        ensures
            final(host).wf(),
        default_ensures
            r == FilterDataStatus::Continue,
            *final(host) == *old(host),
    {
        FilterDataStatus::Continue
    }

    /// A window of the response body, clipped to what is available.
    fn get_http_response_body(&self, host: &HostState, start: usize, max_size: usize) -> (r: Option<
        Bytes,
    >)
        requires
            host.wf(),
            host.cur_live(),
        ensures
            r.deep_view() == buffer_window(
                host.buffer_of(BufferType::HttpResponseBody),
                start as int,
                max_size as int,
            ),
    {
        match host.get_buffer(BufferType::HttpResponseBody, start, max_size) {
            Ok(v) => v,
            Err(_) => None,
        }
    }

    /// Overwrites a range of the response body.
    fn set_http_response_body(&self, host: &mut HostState, start: usize, size: usize, value: &[u8])
        requires
            old(host).wf(),
            old(host).cur_live(),
            value@.len() == size,
            start + size <= old(host).buffer_of(BufferType::HttpResponseBody).len(),
        ensures
            final(host).wf(),
            final(host).buffer_of(BufferType::HttpResponseBody) == old(host).buffer_of(
                BufferType::HttpResponseBody,
            ).subrange(0, start as int) + value@ + old(host).buffer_of(BufferType::HttpResponseBody).subrange(
                start + size,
                old(host).buffer_of(BufferType::HttpResponseBody).len() as int,
            ),
            buffer_update_frame(*old(host), *final(host), BufferType::HttpResponseBody),
    {
        let _ = host.set_buffer(BufferType::HttpResponseBody, start, size, value);
    }

    /// The response trailer phase began.
    fn on_http_response_trailers(&mut self, host: &mut HostState, _num_trailers: usize) -> (r:
        FilterTrailersStatus)
        requires
            old(host).wf(),
        ensures
            final(host).wf(),
        default_ensures
            r == FilterTrailersStatus::Continue,
            *final(host) == *old(host),
    {
        FilterTrailersStatus::Continue
    }

    /// All response trailers, order and duplicates preserved.
    fn get_http_response_trailers(&self, host: &HostState) -> (r: Vec<(String, String)>)
        requires
            host.wf(),
            host.cur_live(),
        ensures
            r.deep_view() == host.map_of(MapType::HttpResponseTrailers),
    {
        match host.get_map(MapType::HttpResponseTrailers) {
            Ok(v) => v,
            Err(_) => Vec::new(),
        }
    }

    /// Replaces the whole response trailer map.
    fn set_http_response_trailers(&self, host: &mut HostState, trailers: Vec<(&str, &str)>)
        requires
            old(host).wf(),
            old(host).cur_live(),
        ensures
            final(host).wf(),
            final(host).map_of(MapType::HttpResponseTrailers) == trailers.deep_view(),
            map_update_frame(*old(host), *final(host), MapType::HttpResponseTrailers),
    {
        let owned = owned_entries(&trailers);
        let _ = host.set_map(MapType::HttpResponseTrailers, owned);
    }

    /// The first response trailer filed under a name.
    fn get_http_response_trailer(&self, host: &HostState, name: &str) -> (r: Option<String>)
        requires
            host.wf(),
            host.cur_live(),
        ensures
            r.deep_view() == first_map_value(host.map_of(MapType::HttpResponseTrailers), name@),
    {
        let owned = name.to_owned();
        match host.get_map_value(MapType::HttpResponseTrailers, &owned) {
            Ok(v) => v,
            Err(_) => None,
        }
    }

    /// Sets the response trailer of a name, as the header form does.
    fn set_http_response_trailer(&self, host: &mut HostState, name: &str, value: Option<&str>)
        requires
            old(host).wf(),
            old(host).cur_live(),
        ensures
            final(host).wf(),
            final(host).map_of(MapType::HttpResponseTrailers) == map_without(
                old(host).map_of(MapType::HttpResponseTrailers),
                name@,
            ) + (match value {
                Some(v) => seq![(name@, v@)],
                None => Seq::<(Seq<char>, Seq<char>)>::empty(),
            }),
            map_update_frame(*old(host), *final(host), MapType::HttpResponseTrailers),
    {
        let owned = name.to_owned();
        let _ = host.set_map_value(MapType::HttpResponseTrailers, &owned, value);
    }

    /// Appends a response trailer, preserving duplicates.
    fn add_http_response_trailer(&self, host: &mut HostState, name: &str, value: &str)
        requires
            old(host).wf(),
            old(host).cur_live(),
        ensures
            final(host).wf(),
            final(host).map_of(MapType::HttpResponseTrailers) == old(host).map_of(MapType::HttpResponseTrailers).push(
                (name@, value@),
            ),
            map_update_frame(*old(host), *final(host), MapType::HttpResponseTrailers),
    {
        let owned_name = name.to_owned();
        let owned_value = value.to_owned();
        let _ = host.add_map_value(MapType::HttpResponseTrailers, &owned_name, &owned_value);
    }

    /// Re-enters the paused response pipeline from where it stopped; a
    /// no-op when nothing is paused.
    fn resume_http_response(&self, host: &mut HostState)
        requires
            old(host).wf(),
            old(host).cur_live(),
            old(host).ctx(old(host).cur_id()).role == ContextRole::Http,
        ensures
            final(host).wf(),
            old(host).flow_of(old(host).cur_id(), StreamType::HttpResponse) == FlowState::Paused ==> final(host).ctx(old(host).cur_id()) == with_flow(
                old(host).ctx(old(host).cur_id()),
                StreamType::HttpResponse,
                FlowState::Open,
            ),
            old(host).flow_of(old(host).cur_id(), StreamType::HttpResponse) != FlowState::Paused
                ==> *final(host) == *old(host),
            forall|id2: u32|
                id2 != old(host).cur_id() && old(host).ctx_exists(id2) ==> #[trigger] final(host).ctx(id2) == old(host).ctx(id2),
            final(host).current == old(host).current,
            HostState::same_shared(*old(host), *final(host)),
            HostState::same_queues(*old(host), *final(host)),
            HostState::same_calls(*old(host), *final(host)),
            HostState::same_props(*old(host), *final(host)),
            HostState::same_staging(*old(host), *final(host)),
            HostState::same_ident(*old(host), *final(host)),
    {
        let _ = host.resume_http_response();
    }

    /// Short-circuits the exchange: the host delivers this synthetic
    /// response instead of the original one, and the plugin should not
    /// keep mutating the exchange afterwards.
    fn send_http_response(
        &self,
        host: &mut HostState,
        status_code: u32,
        headers: Vec<(&str, &str)>,
        body: Option<&[u8]>,
    )
        requires
            old(host).wf(),
            old(host).cur_live(),
            old(host).ctx(old(host).cur_id()).role == ContextRole::Http,
        ensures
            final(host).wf(),
            match final(host).staged_response {
                Some(t) => t.0 == status_code && t.1.deep_view() == headers.deep_view() && t.2@
                    == (match body {
                    Some(b) => b@,
                    None => Seq::<u8>::empty(),
                }),
                None => false,
            },
            final(host).ctx(old(host).cur_id()) == (CtxRec {
                short_circuited: true,
                ..old(host).ctx(old(host).cur_id())
            }),
            forall|id2: u32|
                id2 != old(host).cur_id() && old(host).ctx_exists(id2) ==> #[trigger] final(host).ctx(id2) == old(host).ctx(id2),
            final(host).current == old(host).current,
            HostState::same_shared(*old(host), *final(host)),
            HostState::same_queues(*old(host), *final(host)),
            HostState::same_calls(*old(host), *final(host)),
            HostState::same_props(*old(host), *final(host)),
            HostState::same_ident(*old(host), *final(host)),
    {
        let owned = owned_entries(&headers);
        let _ = host.send_http_response(status_code, owned, body);
    }

    /// Invalidates the routing decision after a header it was derived
    /// from was mutated.
    fn clear_http_route_cache(&self, host: &mut HostState)
        requires
            old(host).wf(),
            old(host).cur_live(),
            old(host).ctx(old(host).cur_id()).role == ContextRole::Http,
        ensures
            final(host).wf(),
            *final(host) == (HostState { route_cache_cleared: true, ..*old(host) }),
    {
        let _ = host.clear_http_route_cache();
    }

    /// Terminal hook, once the exchange is fully resolved.
    fn on_log(&mut self, host: &mut HostState)
        requires
            old(host).wf(),
        ensures
            final(host).wf(),
        default_ensures
            *final(host) == *old(host),
    {
    }
}

} // verus!
