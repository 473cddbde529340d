//! Host-owned buffers, (name, value) maps, the property tree and the
//! configuration payload.
//!
//! Byte data is never cached by a context: every read addresses the
//! host-owned buffer of the moment, clipped to what is available, and
//! every write replaces an explicit range. Maps are ordered sequences of
//! (name, value) string pairs in which duplicate names are permitted and
//! order is preserved.

use vstd::prelude::*;

use crate::host::{bytes_of_slice, clone_bytes, prop_key, HostState, PropEntry};
use crate::table::{has_key, key_index, lemma_key_index_is, lemma_push_keeps_others,
    lemma_remove_keeps_others, lemma_update_keeps_others};
use crate::types::{BufferType, MapType, Status};

verus! {

/// The window a buffer read observes: absent when the start lies past the
/// end, otherwise up to `max` bytes from `start`, clipped to what exists.
pub open spec fn buffer_window(b: Seq<u8>, start: int, max: int) -> Option<Seq<u8>> {
    if start > b.len() {
        None
    } else if start + max <= b.len() {
        Some(b.subrange(start, start + max))
    } else {
        Some(b.subrange(start, b.len() as int))
    }
}

/// First value filed under a name, scanning in order; absent when no
/// entry carries the name.
pub open spec fn first_map_value(m: Seq<(Seq<char>, Seq<char>)>, n: Seq<char>) -> Option<
    Seq<char>,
>
    decreases m.len(),
{
    if m.len() == 0 {
        None
    } else if m[0].0 == n {
        Some(m[0].1)
    } else {
        first_map_value(m.drop_first(), n)
    }
}

/// The map with every entry of the given name removed, order otherwise
/// preserved.
pub open spec fn map_without(m: Seq<(Seq<char>, Seq<char>)>, n: Seq<char>) -> Seq<
    (Seq<char>, Seq<char>),
> {
    m.filter(|e: (Seq<char>, Seq<char>)| e.0 != n)
}

/// Map kinds a plugin may write through the map mutators.
pub open spec fn map_writable(t: MapType) -> bool {
    match t {
        MapType::HttpRequestHeaders => true,
        MapType::HttpRequestTrailers => true,
        MapType::HttpResponseHeaders => true,
        MapType::HttpResponseTrailers => true,
        _ => false,
    }
}

impl HostState {
    /// The bytes a buffer kind currently holds.
    pub open spec fn buffer_of(self, t: BufferType) -> Seq<u8> {
        match t {
            BufferType::HttpRequestBody => self.request_body@,
            BufferType::HttpResponseBody => self.response_body@,
            BufferType::DownstreamData => self.downstream_data@,
            BufferType::UpstreamData => self.upstream_data@,
            BufferType::HttpCallResponseBody => self.call_response_body@,
            BufferType::GrpcReceiveBuffer => Seq::empty(),
            BufferType::VmConfiguration => self.vm_config@,
            BufferType::PluginConfiguration => self.plugin_config@,
            BufferType::CallData => self.call_data@,
        }
    }

    /// The entries a map kind currently holds.
    pub open spec fn map_of(self, t: MapType) -> Seq<(Seq<char>, Seq<char>)> {
        match t {
            MapType::HttpRequestHeaders => self.request_headers.deep_view(),
            MapType::HttpRequestTrailers => self.request_trailers.deep_view(),
            MapType::HttpResponseHeaders => self.response_headers.deep_view(),
            MapType::HttpResponseTrailers => self.response_trailers.deep_view(),
            MapType::GrpcReceiveInitialMetadata => Seq::empty(),
            MapType::GrpcReceiveTrailingMetadata => Seq::empty(),
            MapType::HttpCallResponseHeaders => self.call_response_headers.deep_view(),
            MapType::HttpCallResponseTrailers => self.call_response_trailers.deep_view(),
        }
    }

    /// A buffer kind this model stores.
    pub open spec fn buffer_backed(t: BufferType) -> bool {
        !(t is GrpcReceiveBuffer)
    }

    /// A map kind this model stores.
    pub open spec fn map_backed(t: MapType) -> bool {
        !(t is GrpcReceiveInitialMetadata) && !(t is GrpcReceiveTrailingMetadata)
    }

    /// Reading a call-response buffer or map is valid only while the
    /// completion callback is being delivered.
    pub open spec fn buffer_readable(self, t: BufferType) -> bool {
        self.cur_live() && Self::buffer_backed(t) && (t is HttpCallResponseBody
            ==> self.call_response_active)
    }

    /// As `buffer_readable`, for map kinds.
    pub open spec fn map_readable(self, t: MapType) -> bool {
        self.cur_live() && Self::map_backed(t) && ((t is HttpCallResponseHeaders
            || t is HttpCallResponseTrailers) ==> self.call_response_active)
    }

    /// A property path that has been set.
    pub open spec fn prop_exists(self, p: Seq<Seq<char>>) -> bool {
        has_key(self.props@, prop_key(), p)
    }

    /// The value stored under a property path (meaningful when set).
    pub open spec fn prop_value(self, p: Seq<Seq<char>>) -> Seq<u8> {
        self.props@[key_index(self.props@, prop_key(), p)].value@
    }

    // ----- buffers -----

    /// Reads a byte window of a host-owned buffer; a start past the end is
    /// a value-level absence, not a failure.
    pub fn get_buffer(&self, t: BufferType, start: usize, max_size: usize) -> (r: Result<
        Option<Vec<u8>>,
        Status,
    >)
        requires
            self.wf(),
        ensures
            r is Ok <==> self.buffer_readable(t),
            !self.cur_live() ==> r == Result::<Option<Vec<u8>>, Status>::Err(Status::BadArgument),
            self.cur_live() && !Self::buffer_backed(t) ==> r == Result::<
                Option<Vec<u8>>,
                Status,
            >::Err(Status::Unimplemented),
            match r {
                Ok(v) => v.deep_view() == buffer_window(
                    self.buffer_of(t),
                    start as int,
                    max_size as int,
                ),
                Err(_) => true,
            },
    {
        if !self.current_live() {
            return Err(Status::BadArgument);
        }
        let buf: &Vec<u8> = match t {
            BufferType::HttpRequestBody => &self.request_body,
            BufferType::HttpResponseBody => &self.response_body,
            BufferType::DownstreamData => &self.downstream_data,
            BufferType::UpstreamData => &self.upstream_data,
            BufferType::HttpCallResponseBody => {
                if !self.call_response_active {
                    return Err(Status::BadArgument);
                }
                &self.call_response_body
            },
            BufferType::GrpcReceiveBuffer => {
                return Err(Status::Unimplemented);
            },
            BufferType::VmConfiguration => &self.vm_config,
            BufferType::PluginConfiguration => &self.plugin_config,
            BufferType::CallData => &self.call_data,
        };
        Ok(bytes_window(buf, start, max_size))
    }

    /// Overwrites a byte range of a host-owned buffer; the replacement
    /// must match the addressed size exactly and lie within the buffer.
    pub fn set_buffer(&mut self, t: BufferType, start: usize, size: usize, value: &[u8]) -> (r:
        Result<(), Status>)
        requires
            old(self).wf(),
        ensures
            final(self).wf(),
            !old(self).cur_live() ==> r == Result::<(), Status>::Err(Status::BadArgument)
                && *final(self) == *old(self),
            old(self).cur_live() && !Self::buffer_backed(t) ==> r == Result::<(), Status>::Err(
                Status::Unimplemented,
            ) && *final(self) == *old(self),
            old(self).cur_live() && Self::buffer_backed(t) && !(value@.len() == size && start
                + size <= old(self).buffer_of(t).len()) ==> r == Result::<(), Status>::Err(
                Status::BadArgument,
            ) && *final(self) == *old(self),
            old(self).cur_live() && Self::buffer_backed(t) && value@.len() == size && start + size
                <= old(self).buffer_of(t).len() ==> {
                &&& r == Result::<(), Status>::Ok(())
                &&& final(self).buffer_of(t) == old(self).buffer_of(t).subrange(0, start as int)
                    + value@ + old(self).buffer_of(t).subrange(
                    start + size,
                    old(self).buffer_of(t).len() as int,
                )
                &&& forall|t2: BufferType|
                    t2 != t ==> #[trigger] final(self).buffer_of(t2) == old(self).buffer_of(t2)
                &&& forall|t2: MapType| #[trigger] final(self).map_of(t2) == old(self).map_of(t2)
                &&& final(self).call_response_active == old(self).call_response_active
                &&& final(self).active_config == old(self).active_config
                &&& final(self).staged_response == old(self).staged_response
                &&& final(self).route_cache_cleared == old(self).route_cache_cleared
                &&& HostState::same_contexts(*old(self), *final(self))
                &&& HostState::same_shared(*old(self), *final(self))
                &&& HostState::same_queues(*old(self), *final(self))
                &&& HostState::same_calls(*old(self), *final(self))
                &&& HostState::same_props(*old(self), *final(self))
                &&& HostState::same_ident(*old(self), *final(self))
            },
    {
        if !self.current_live() {
            return Err(Status::BadArgument);
        }
        if matches!(t, BufferType::GrpcReceiveBuffer) {
            return Err(Status::Unimplemented);
        }
        let buf_len = match t {
            BufferType::HttpRequestBody => self.request_body.len(),
            BufferType::HttpResponseBody => self.response_body.len(),
            BufferType::DownstreamData => self.downstream_data.len(),
            BufferType::UpstreamData => self.upstream_data.len(),
            BufferType::HttpCallResponseBody => self.call_response_body.len(),
            BufferType::GrpcReceiveBuffer => 0,
            BufferType::VmConfiguration => self.vm_config.len(),
            BufferType::PluginConfiguration => self.plugin_config.len(),
            BufferType::CallData => self.call_data.len(),
        };
        if value.len() != size || start > buf_len || size > buf_len - start {
            return Err(Status::BadArgument);
        }
        match t {
            BufferType::HttpRequestBody => {
                let nv = splice_bytes(&self.request_body, start, value);
                self.request_body = nv;
            },
            BufferType::HttpResponseBody => {
                let nv = splice_bytes(&self.response_body, start, value);
                self.response_body = nv;
            },
            BufferType::DownstreamData => {
                let nv = splice_bytes(&self.downstream_data, start, value);
                self.downstream_data = nv;
            },
            BufferType::UpstreamData => {
                let nv = splice_bytes(&self.upstream_data, start, value);
                self.upstream_data = nv;
            },
            BufferType::HttpCallResponseBody => {
                let nv = splice_bytes(&self.call_response_body, start, value);
                self.call_response_body = nv;
            },
            BufferType::GrpcReceiveBuffer => {
                return Err(Status::Unimplemented);
            },
            BufferType::VmConfiguration => {
                let nv = splice_bytes(&self.vm_config, start, value);
                self.vm_config = nv;
            },
            BufferType::PluginConfiguration => {
                let nv = splice_bytes(&self.plugin_config, start, value);
                self.plugin_config = nv;
            },
            BufferType::CallData => {
                let nv = splice_bytes(&self.call_data, start, value);
                self.call_data = nv;
            },
        }
        Ok(())
    }

    /// Host-side: appends an arriving chunk at the tail of a buffer, the
    /// staging step of every data-delivery event.
    pub fn append_buffer(&mut self, t: BufferType, chunk: &[u8]) -> (r: Result<(), Status>)
        requires
            old(self).wf(),
        ensures
            final(self).wf(),
            !Self::buffer_backed(t) ==> r == Result::<(), Status>::Err(Status::Unimplemented)
                && *final(self) == *old(self),
            Self::buffer_backed(t) ==> {
                &&& r == Result::<(), Status>::Ok(())
                &&& final(self).buffer_of(t) == old(self).buffer_of(t) + chunk@
                &&& forall|t2: BufferType|
                    t2 != t ==> #[trigger] final(self).buffer_of(t2) == old(self).buffer_of(t2)
                &&& forall|t2: MapType| #[trigger] final(self).map_of(t2) == old(self).map_of(t2)
                &&& final(self).call_response_active == old(self).call_response_active
                &&& final(self).active_config == old(self).active_config
                &&& final(self).staged_response == old(self).staged_response
                &&& final(self).route_cache_cleared == old(self).route_cache_cleared
                &&& HostState::same_contexts(*old(self), *final(self))
                &&& HostState::same_shared(*old(self), *final(self))
                &&& HostState::same_queues(*old(self), *final(self))
                &&& HostState::same_calls(*old(self), *final(self))
                &&& HostState::same_props(*old(self), *final(self))
                &&& HostState::same_ident(*old(self), *final(self))
            },
    {
        match t {
            BufferType::HttpRequestBody => {
                let nv = concat_bytes(&self.request_body, chunk);
                self.request_body = nv;
            },
            BufferType::HttpResponseBody => {
                let nv = concat_bytes(&self.response_body, chunk);
                self.response_body = nv;
            },
            BufferType::DownstreamData => {
                let nv = concat_bytes(&self.downstream_data, chunk);
                self.downstream_data = nv;
            },
            BufferType::UpstreamData => {
                let nv = concat_bytes(&self.upstream_data, chunk);
                self.upstream_data = nv;
            },
            BufferType::HttpCallResponseBody => {
                let nv = concat_bytes(&self.call_response_body, chunk);
                self.call_response_body = nv;
            },
            BufferType::GrpcReceiveBuffer => {
                return Err(Status::Unimplemented);
            },
            BufferType::VmConfiguration => {
                let nv = concat_bytes(&self.vm_config, chunk);
                self.vm_config = nv;
            },
            BufferType::PluginConfiguration => {
                let nv = concat_bytes(&self.plugin_config, chunk);
                self.plugin_config = nv;
            },
            BufferType::CallData => {
                let nv = concat_bytes(&self.call_data, chunk);
                self.call_data = nv;
            },
        }
        Ok(())
    }

    // ----- maps -----

    /// Reads a whole map, order and duplicates preserved.
    pub fn get_map(&self, t: MapType) -> (r: Result<Vec<(String, String)>, Status>)
        requires
            self.wf(),
        ensures
            r is Ok <==> self.map_readable(t),
            !self.cur_live() ==> r == Result::<Vec<(String, String)>, Status>::Err(
                Status::BadArgument,
            ),
            self.cur_live() && !Self::map_backed(t) ==> r == Result::<
                Vec<(String, String)>,
                Status,
            >::Err(Status::Unimplemented),
            match r {
                Ok(v) => v.deep_view() == self.map_of(t),
                Err(_) => true,
            },
    {
        if !self.current_live() {
            return Err(Status::BadArgument);
        }
        let m: &Vec<(String, String)> = match t {
            MapType::HttpRequestHeaders => &self.request_headers,
            MapType::HttpRequestTrailers => &self.request_trailers,
            MapType::HttpResponseHeaders => &self.response_headers,
            MapType::HttpResponseTrailers => &self.response_trailers,
            MapType::GrpcReceiveInitialMetadata => {
                return Err(Status::Unimplemented);
            },
            MapType::GrpcReceiveTrailingMetadata => {
                return Err(Status::Unimplemented);
            },
            MapType::HttpCallResponseHeaders => {
                if !self.call_response_active {
                    return Err(Status::BadArgument);
                }
                &self.call_response_headers
            },
            MapType::HttpCallResponseTrailers => {
                if !self.call_response_active {
                    return Err(Status::BadArgument);
                }
                &self.call_response_trailers
            },
        };
        Ok(clone_entries(m))
    }

    /// Reads the first value filed under a name; absence is value-level.
    pub fn get_map_value(&self, t: MapType, name: &String) -> (r: Result<Option<String>, Status>)
        requires
            self.wf(),
        ensures
            r is Ok <==> self.map_readable(t),
            match r {
                Ok(v) => v.deep_view() == first_map_value(self.map_of(t), name@),
                Err(_) => true,
            },
    {
        let m = self.get_map(t)?;
        Ok(find_map_value(&m, name))
    }

    /// Replaces a whole writable map.
    pub fn set_map(&mut self, t: MapType, entries: Vec<(String, String)>) -> (r: Result<
        (),
        Status,
    >)
        requires
            old(self).wf(),
        ensures
            final(self).wf(),
            !old(self).cur_live() ==> r == Result::<(), Status>::Err(Status::BadArgument)
                && *final(self) == *old(self),
            old(self).cur_live() && !map_writable(t) ==> r == Result::<(), Status>::Err(
                Status::Unimplemented,
            ) && *final(self) == *old(self),
            old(self).cur_live() && map_writable(t) ==> {
                &&& r == Result::<(), Status>::Ok(())
                &&& final(self).map_of(t) == entries.deep_view()
                &&& forall|t2: MapType|
                    t2 != t ==> #[trigger] final(self).map_of(t2) == old(self).map_of(t2)
                &&& forall|t2: BufferType| #[trigger] final(self).buffer_of(t2) == old(self).buffer_of(t2)
                &&& final(self).call_response_active == old(self).call_response_active
                &&& final(self).active_config == old(self).active_config
                &&& final(self).staged_response == old(self).staged_response
                &&& final(self).route_cache_cleared == old(self).route_cache_cleared
                &&& HostState::same_contexts(*old(self), *final(self))
                &&& HostState::same_shared(*old(self), *final(self))
                &&& HostState::same_queues(*old(self), *final(self))
                &&& HostState::same_calls(*old(self), *final(self))
                &&& HostState::same_props(*old(self), *final(self))
                &&& HostState::same_ident(*old(self), *final(self))
            },
    {
        if !self.current_live() {
            return Err(Status::BadArgument);
        }
        match t {
            MapType::HttpRequestHeaders => {
                self.request_headers = entries;
                Ok(())
            },
            MapType::HttpRequestTrailers => {
                self.request_trailers = entries;
                Ok(())
            },
            MapType::HttpResponseHeaders => {
                self.response_headers = entries;
                Ok(())
            },
            MapType::HttpResponseTrailers => {
                self.response_trailers = entries;
                Ok(())
            },
            _ => Err(Status::Unimplemented),
        }
    }

    /// Host-side: stages a whole map, as event delivery does for the
    /// headers or trailers the event is about.
    pub fn put_map(&mut self, t: MapType, entries: Vec<(String, String)>) -> (r: Result<
        (),
        Status,
    >)
        requires
            old(self).wf(),
        ensures
            final(self).wf(),
            !Self::map_backed(t) ==> r == Result::<(), Status>::Err(Status::Unimplemented)
                && *final(self) == *old(self),
            Self::map_backed(t) ==> {
                &&& r == Result::<(), Status>::Ok(())
                &&& final(self).map_of(t) == entries.deep_view()
                &&& forall|t2: MapType|
                    t2 != t ==> #[trigger] final(self).map_of(t2) == old(self).map_of(t2)
                &&& forall|t2: BufferType| #[trigger] final(self).buffer_of(t2) == old(self).buffer_of(t2)
                &&& final(self).call_response_active == old(self).call_response_active
                &&& final(self).active_config == old(self).active_config
                &&& final(self).staged_response == old(self).staged_response
                &&& final(self).route_cache_cleared == old(self).route_cache_cleared
                &&& HostState::same_contexts(*old(self), *final(self))
                &&& HostState::same_shared(*old(self), *final(self))
                &&& HostState::same_queues(*old(self), *final(self))
                &&& HostState::same_calls(*old(self), *final(self))
                &&& HostState::same_props(*old(self), *final(self))
                &&& HostState::same_ident(*old(self), *final(self))
            },
    {
        match t {
            MapType::HttpRequestHeaders => {
                self.request_headers = entries;
                Ok(())
            },
            MapType::HttpRequestTrailers => {
                self.request_trailers = entries;
                Ok(())
            },
            MapType::HttpResponseHeaders => {
                self.response_headers = entries;
                Ok(())
            },
            MapType::HttpResponseTrailers => {
                self.response_trailers = entries;
                Ok(())
            },
            MapType::GrpcReceiveInitialMetadata => Err(Status::Unimplemented),
            MapType::GrpcReceiveTrailingMetadata => Err(Status::Unimplemented),
            MapType::HttpCallResponseHeaders => {
                self.call_response_headers = entries;
                Ok(())
            },
            MapType::HttpCallResponseTrailers => {
                self.call_response_trailers = entries;
                Ok(())
            },
        }
    }

    /// Sets the value filed under a name: every entry of that name leaves,
    /// and a present value is appended; an absent value only removes.
    pub fn set_map_value(&mut self, t: MapType, name: &String, value: Option<&str>) -> (r: Result<
        (),
        Status,
    >)
        requires
            old(self).wf(),
        ensures
            final(self).wf(),
            !old(self).cur_live() ==> r == Result::<(), Status>::Err(Status::BadArgument)
                && *final(self) == *old(self),
            old(self).cur_live() && !map_writable(t) ==> r == Result::<(), Status>::Err(
                Status::Unimplemented,
            ) && *final(self) == *old(self),
            old(self).cur_live() && map_writable(t) ==> {
                &&& r == Result::<(), Status>::Ok(())
                &&& final(self).map_of(t) == map_without(old(self).map_of(t), name@) + (
                match value {
                    Some(v) => seq![(name@, v@)],
                    None => Seq::<(Seq<char>, Seq<char>)>::empty(),
                })
                &&& forall|t2: MapType|
                    t2 != t ==> #[trigger] final(self).map_of(t2) == old(self).map_of(t2)
                &&& forall|t2: BufferType| #[trigger] final(self).buffer_of(t2) == old(self).buffer_of(t2)
                &&& final(self).call_response_active == old(self).call_response_active
                &&& final(self).active_config == old(self).active_config
                &&& final(self).staged_response == old(self).staged_response
                &&& final(self).route_cache_cleared == old(self).route_cache_cleared
                &&& HostState::same_contexts(*old(self), *final(self))
                &&& HostState::same_shared(*old(self), *final(self))
                &&& HostState::same_queues(*old(self), *final(self))
                &&& HostState::same_calls(*old(self), *final(self))
                &&& HostState::same_props(*old(self), *final(self))
                &&& HostState::same_ident(*old(self), *final(self))
            },
    {
        if !self.current_live() {
            return Err(Status::BadArgument);
        }
        let source: &Vec<(String, String)> = match t {
            MapType::HttpRequestHeaders => &self.request_headers,
            MapType::HttpRequestTrailers => &self.request_trailers,
            MapType::HttpResponseHeaders => &self.response_headers,
            MapType::HttpResponseTrailers => &self.response_trailers,
            _ => {
                return Err(Status::Unimplemented);
            },
        };
        let mut nv = remove_map_entries(source, name);
        let ghost removed = nv.deep_view();
        match value {
            Some(v) => {
                nv.push((name.clone(), v.to_owned()));
                proof {
                    assert(nv.deep_view() =~~= removed + seq![(name@, v@)]);
                }
            },
            None => {
                proof {
                    assert(nv.deep_view() =~~= removed
                        + Seq::<(Seq<char>, Seq<char>)>::empty());
                }
            },
        }
        match t {
            MapType::HttpRequestHeaders => {
                self.request_headers = nv;
                Ok(())
            },
            MapType::HttpRequestTrailers => {
                self.request_trailers = nv;
                Ok(())
            },
            MapType::HttpResponseHeaders => {
                self.response_headers = nv;
                Ok(())
            },
            MapType::HttpResponseTrailers => {
                self.response_trailers = nv;
                Ok(())
            },
            _ => Err(Status::Unimplemented),
        }
    }

    /// Appends an entry, preserving duplicates: an existing value under
    /// the same name is never overwritten.
    pub fn add_map_value(&mut self, t: MapType, name: &String, value: &String) -> (r: Result<
        (),
        Status,
    >)
        requires
            old(self).wf(),
        ensures
            final(self).wf(),
            !old(self).cur_live() ==> r == Result::<(), Status>::Err(Status::BadArgument)
                && *final(self) == *old(self),
            old(self).cur_live() && !map_writable(t) ==> r == Result::<(), Status>::Err(
                Status::Unimplemented,
            ) && *final(self) == *old(self),
            old(self).cur_live() && map_writable(t) ==> {
                &&& r == Result::<(), Status>::Ok(())
                &&& final(self).map_of(t) == old(self).map_of(t).push((name@, value@))
                &&& forall|t2: MapType|
                    t2 != t ==> #[trigger] final(self).map_of(t2) == old(self).map_of(t2)
                &&& forall|t2: BufferType| #[trigger] final(self).buffer_of(t2) == old(self).buffer_of(t2)
                &&& final(self).call_response_active == old(self).call_response_active
                &&& final(self).active_config == old(self).active_config
                &&& final(self).staged_response == old(self).staged_response
                &&& final(self).route_cache_cleared == old(self).route_cache_cleared
                &&& HostState::same_contexts(*old(self), *final(self))
                &&& HostState::same_shared(*old(self), *final(self))
                &&& HostState::same_queues(*old(self), *final(self))
                &&& HostState::same_calls(*old(self), *final(self))
                &&& HostState::same_props(*old(self), *final(self))
                &&& HostState::same_ident(*old(self), *final(self))
            },
    {
        if !self.current_live() {
            return Err(Status::BadArgument);
        }
        let entry = (name.clone(), value.clone());
        let ghost pre = *self;
        match t {
            MapType::HttpRequestHeaders => {
                self.request_headers.push(entry);
                proof {
                    assert(self.request_headers.deep_view() =~~= pre.request_headers.deep_view()
                        .push((name@, value@)));
                }
                Ok(())
            },
            MapType::HttpRequestTrailers => {
                self.request_trailers.push(entry);
                proof {
                    assert(self.request_trailers.deep_view() =~~= pre.request_trailers.deep_view()
                        .push((name@, value@)));
                }
                Ok(())
            },
            MapType::HttpResponseHeaders => {
                self.response_headers.push(entry);
                proof {
                    assert(self.response_headers.deep_view() =~~= pre.response_headers.deep_view()
                        .push((name@, value@)));
                }
                Ok(())
            },
            MapType::HttpResponseTrailers => {
                self.response_trailers.push(entry);
                proof {
                    assert(self.response_trailers.deep_view()
                        =~~= pre.response_trailers.deep_view().push((name@, value@)));
                }
                Ok(())
            },
            _ => Err(Status::Unimplemented),
        }
    }

    // ----- properties -----

    /// Position of a property path.
    fn find_prop(&self, path: &Vec<String>) -> (r: Option<usize>)
        ensures
            match r {
                Some(i) => i < self.props@.len() && self.props@[i as int].path.deep_view()
                    == path.deep_view(),
                None => !self.prop_exists(path.deep_view()),
            },
    {
        let mut i: usize = 0;
        while i < self.props.len()
            invariant
                i <= self.props@.len(),
                forall|j: int|
                    0 <= j < i ==> (#[trigger] self.props@[j].path).deep_view()
                        != path.deep_view(),
            decreases self.props@.len() - i,
        {
            if path_eq(&self.props[i].path, path) {
                return Some(i);
            }
            i += 1;
        }
        proof {
            if self.prop_exists(path.deep_view()) {
                let m = key_index(self.props@, prop_key(), path.deep_view());
                assert(0 <= m < self.props@.len() && prop_key()(self.props@[m])
                    == path.deep_view());
                assert(false);
            }
        }
        None
    }

    /// Reads a property of the host's attribute tree; absence is a
    /// value-level outcome, distinct from presence with an empty value.
    pub fn get_property(&self, path: &Vec<String>) -> (r: Result<Option<Vec<u8>>, Status>)
        requires
            self.wf(),
        ensures
            r is Ok <==> self.cur_live(),
            match r {
                Ok(v) => match v {
                    Some(b) => self.prop_exists(path.deep_view()) && b@ == self.prop_value(
                        path.deep_view(),
                    ),
                    None => !self.prop_exists(path.deep_view()),
                },
                Err(e) => e == Status::BadArgument,
            },
    {
        if !self.current_live() {
            return Err(Status::BadArgument);
        }
        match self.find_prop(path) {
            Some(i) => {
                proof {
                    lemma_key_index_is(self.props@, prop_key(), i as int);
                }
                Ok(Some(clone_bytes(&self.props[i].value)))
            },
            None => Ok(None),
        }
    }

    /// Writes or removes a property: a present value replaces or creates
    /// the entry, an absent value removes it.
    pub fn set_property(&mut self, path: &Vec<String>, value: Option<&[u8]>) -> (r: Result<
        (),
        Status,
    >)
        requires
            old(self).wf(),
        ensures
            final(self).wf(),
            !old(self).cur_live() ==> r == Result::<(), Status>::Err(Status::BadArgument)
                && *final(self) == *old(self),
            old(self).cur_live() ==> {
                &&& r == Result::<(), Status>::Ok(())
                &&& (match value {
                    Some(b) => final(self).prop_exists(path.deep_view()) && final(self).prop_value(
                        path.deep_view(),
                    ) == b@,
                    None => !final(self).prop_exists(path.deep_view()),
                })
                &&& forall|p2: Seq<Seq<char>>|
                    p2 != path.deep_view() ==> #[trigger] final(self).prop_exists(p2) == old(self).prop_exists(p2)
                &&& forall|p2: Seq<Seq<char>>|
                    p2 != path.deep_view() && old(self).prop_exists(p2) ==> #[trigger] final(self).prop_value(p2) == old(self).prop_value(p2)
                &&& HostState::same_contexts(*old(self), *final(self))
                &&& HostState::same_shared(*old(self), *final(self))
                &&& HostState::same_queues(*old(self), *final(self))
                &&& HostState::same_calls(*old(self), *final(self))
                &&& HostState::same_staging(*old(self), *final(self))
                &&& HostState::same_ident(*old(self), *final(self))
            },
    {
        if !self.current_live() {
            return Err(Status::BadArgument);
        }
        let found = self.find_prop(path);
        match value {
            Some(b) => {
                let stored = bytes_of_slice(b);
                match found {
                    Some(i) => {
                        proof {
                            lemma_key_index_is(self.props@, prop_key(), i as int);
                        }
                        let ghost pre = *self;
                        self.props[i].value = stored;
                        proof {
                            assert(self.props@ =~= pre.props@.update(
                                i as int,
                                self.props@[i as int],
                            ));
                            lemma_update_keeps_others(pre.props@, self.props@, prop_key(), i as int);
                            assert forall|p2: Seq<Seq<char>>| p2 != path.deep_view()
                                implies #[trigger] self.prop_exists(p2) == pre.prop_exists(p2) by {
                                assert(has_key(self.props@, prop_key(), p2) == has_key(
                                    pre.props@,
                                    prop_key(),
                                    p2,
                                ));
                            }
                        }
                        Ok(())
                    },
                    None => {
                        let ghost pre = *self;
                        let mut owned: Vec<String> = Vec::new();
                        let mut i: usize = 0;
                        proof {
                            assert(owned.deep_view() =~= path.deep_view().take(0));
                        }
                        while i < path.len()
                            invariant
                                i <= path@.len(),
                                owned.deep_view() == path.deep_view().take(i as int),
                            decreases path@.len() - i,
                        {
                            let s2 = path[i].clone();
                            push_string(&mut owned, s2);
                            i += 1;
                            proof {
                                assert(path.deep_view()[i - 1] == path@[i - 1].deep_view());
                                assert(path.deep_view().take(i as int) =~= path.deep_view().take(
                                    i - 1,
                                ).push(path.deep_view()[i - 1]));
                            }
                        }
                        proof {
                            assert(path.deep_view().take(path@.len() as int) =~= path.deep_view());
                        }
                        self.props.push(PropEntry { path: owned, value: stored });
                        proof {
                            assert(self.props@ =~= pre.props@.push(self.props@.last()));
                            assert(prop_key()(self.props@.last()) == path.deep_view());
                            lemma_push_keeps_others(pre.props@, self.props@, prop_key());
                            assert forall|p2: Seq<Seq<char>>| p2 != path.deep_view()
                                implies #[trigger] self.prop_exists(p2) == pre.prop_exists(p2) by {
                                assert(has_key(self.props@, prop_key(), p2) == has_key(
                                    pre.props@,
                                    prop_key(),
                                    p2,
                                ));
                            }
                        }
                        Ok(())
                    },
                }
            },
            None => {
                match found {
                    Some(i) => {
                        proof {
                            lemma_key_index_is(self.props@, prop_key(), i as int);
                        }
                        let ghost pre = *self;
                        self.props.remove(i);
                        proof {
                            lemma_remove_keeps_others(pre.props@, self.props@, prop_key(), i as int);
                            assert forall|p2: Seq<Seq<char>>| p2 != path.deep_view()
                                implies #[trigger] self.prop_exists(p2) == pre.prop_exists(p2) by {
                                assert(has_key(self.props@, prop_key(), p2) == has_key(
                                    pre.props@,
                                    prop_key(),
                                    p2,
                                ));
                            }
                        }
                        Ok(())
                    },
                    None => Ok(()),
                }
            },
        }
    }

    // ----- configuration -----

    /// The configuration payload, readable during the startup callbacks
    /// that carry it.
    pub fn get_configuration(&self) -> (r: Result<Option<Vec<u8>>, Status>)
        requires
            self.wf(),
        ensures
            r is Ok <==> self.cur_live(),
            match r {
                Ok(v) => v.deep_view() == self.active_config.deep_view(),
                Err(e) => e == Status::BadArgument,
            },
    {
        if !self.current_live() {
            return Err(Status::BadArgument);
        }
        match &self.active_config {
            Some(b) => Ok(Some(clone_bytes(b))),
            None => Ok(None),
        }
    }
}

/// Equality of two property paths, component by component.
pub fn path_eq(a: &Vec<String>, b: &Vec<String>) -> (r: bool)
    ensures
        r == (a.deep_view() == b.deep_view()),
{
    if a.len() != b.len() {
        proof {
            assert(a.deep_view().len() == a@.len());
            assert(b.deep_view().len() == b@.len());
        }
        return false;
    }
    let mut i: usize = 0;
    while i < a.len()
        invariant
            a@.len() == b@.len(),
            i <= a@.len(),
            forall|j: int| 0 <= j < i ==> #[trigger] a.deep_view()[j] == b.deep_view()[j],
        decreases a@.len() - i,
    {
        if !a[i].eq(&b[i]) {
            proof {
                assert(a.deep_view()[i as int] != b.deep_view()[i as int]);
            }
            return false;
        }
        i += 1;
    }
    proof {
        assert(a.deep_view() =~= b.deep_view());
    }
    true
}

/// Concatenation of a buffer and an arriving chunk.
pub fn concat_bytes(a: &Vec<u8>, b: &[u8]) -> (r: Vec<u8>)
    ensures
        r@ == a@ + b@,
{
    let mut out = clone_bytes(a);
    let mut i: usize = 0;
    while i < b.len()
        invariant
            i <= b@.len(),
            out@ == a@ + b@.take(i as int),
        decreases b@.len() - i,
    {
        out.push(b[i]);
        i += 1;
        proof {
            assert(a@ + b@.take(i as int) =~= (a@ + b@.take(i - 1)).push(b@[i - 1]));
        }
    }
    proof {
        assert(a@ + b@.take(b@.len() as int) =~= a@ + b@);
    }
    out
}

/// The byte window of a buffer read, clipped to what exists.
pub fn bytes_window(buf: &Vec<u8>, start: usize, max_size: usize) -> (r: Option<Vec<u8>>)
    ensures
        r.deep_view() == buffer_window(buf@, start as int, max_size as int),
{
    if start > buf.len() {
        return None;
    }
    let available = buf.len() - start;
    let count = if max_size < available {
        max_size
    } else {
        available
    };
    let end = start + count;
    let mut out: Vec<u8> = Vec::new();
    let mut j: usize = start;
    while j < end
        invariant
            start <= j <= end,
            end <= buf@.len(),
            out@ == buf@.subrange(start as int, j as int),
        decreases end - j,
    {
        out.push(buf[j]);
        j += 1;
        proof {
            assert(buf@.subrange(start as int, j as int) =~= buf@.subrange(
                start as int,
                j - 1,
            ).push(buf@[j - 1]));
        }
    }
    proof {
        assert(out@ =~= buffer_window(buf@, start as int, max_size as int)->0);
    }
    Some(out)
}

/// Replacement of the byte range starting at `start` with `value`.
pub fn splice_bytes(buf: &Vec<u8>, start: usize, value: &[u8]) -> (r: Vec<u8>)
    requires
        start + value@.len() <= buf@.len(),
    ensures
        r@ == buf@.subrange(0, start as int) + value@ + buf@.subrange(
            start + value@.len(),
            buf@.len() as int,
        ),
{
    let mut out: Vec<u8> = Vec::new();
    let mut i: usize = 0;
    while i < buf.len()
        invariant
            start + value@.len() <= buf@.len(),
            i <= buf@.len(),
            out@.len() == i,
            forall|j: int|
                0 <= j < i ==> #[trigger] out@[j] == (if j < start {
                    buf@[j]
                } else if j < start + value@.len() {
                    value@[j - start]
                } else {
                    buf@[j]
                }),
        decreases buf@.len() - i,
    {
        if i >= start && i < start + value.len() {
            out.push(value[i - start]);
        } else {
            out.push(buf[i]);
        }
        i += 1;
    }
    proof {
        assert(out@ =~= buf@.subrange(0, start as int) + value@ + buf@.subrange(
            start + value@.len(),
            buf@.len() as int,
        ));
    }
    out
}

/// Copy of a (name, value) map, order and duplicates preserved.
pub fn clone_entries(v: &Vec<(String, String)>) -> (r: Vec<(String, String)>)
    ensures
        r.deep_view() == v.deep_view(),
{
    let mut out: Vec<(String, String)> = Vec::new();
    let mut i: usize = 0;
    proof {
        assert(out.deep_view() =~= v.deep_view().take(0));
    }
    while i < v.len()
        invariant
            i <= v@.len(),
            out.deep_view() == v.deep_view().take(i as int),
        decreases v@.len() - i,
    {
        let name = v[i].0.clone();
        let val = v[i].1.clone();
        push_pair(&mut out, name, val);
        i += 1;
        proof {
            assert(v.deep_view()[i - 1] == v@[i - 1].deep_view());
            assert(v.deep_view().take(i as int) =~= v.deep_view().take(i - 1).push(
                v.deep_view()[i - 1],
            ));
        }
    }
    proof {
        assert(v.deep_view().take(v@.len() as int) =~= v.deep_view());
    }
    out
}

/// Appends one (name, value) pair, related at the level of views.
pub(crate) fn push_pair(v: &mut Vec<(String, String)>, name: String, val: String)
    ensures
        final(v).deep_view() == old(v).deep_view().push((name@, val@)),
{
    let ghost pre = v.deep_view();
    let ghost namev = name@;
    let ghost valv = val@;
    v.push((name, val));
    proof {
        assert forall|j: int| 0 <= j < v.deep_view().len() implies v.deep_view()[j] == pre.push(
            (namev, valv),
        )[j] by {
            assert(v.deep_view()[j] == v@[j].deep_view());
            if j < pre.len() {
                assert(v@[j] == old(v)@[j]);
                assert(pre[j] == old(v)@[j].deep_view());
            } else {
                assert(v@[j].deep_view() == (namev, valv));
            }
        }
        assert(v.deep_view() =~= pre.push((namev, valv)));
    }
}

/// Appends one path component, related at the level of views.
pub(crate) fn push_string(v: &mut Vec<String>, s: String)
    ensures
        final(v).deep_view() == old(v).deep_view().push(s@),
{
    let ghost pre = v.deep_view();
    let ghost sv = s@;
    v.push(s);
    proof {
        assert forall|j: int| 0 <= j < v.deep_view().len() implies v.deep_view()[j] == pre.push(
            sv,
        )[j] by {
            assert(v.deep_view()[j] == v@[j].deep_view());
            if j < pre.len() {
                assert(v@[j] == old(v)@[j]);
                assert(pre[j] == old(v)@[j].deep_view());
            }
        }
        assert(v.deep_view() =~= pre.push(sv));
    }
}

/// First value filed under a name, scanning a map in order.
pub fn find_map_value(v: &Vec<(String, String)>, name: &String) -> (r: Option<String>)
    ensures
        r.deep_view() == first_map_value(v.deep_view(), name@),
{
    let ghost m = v.deep_view();
    let mut i: usize = 0;
    proof {
        assert(m.skip(0) =~= m);
    }
    while i < v.len()
        invariant
            m == v.deep_view(),
            i <= v@.len(),
            first_map_value(m, name@) == first_map_value(m.skip(i as int), name@),
        decreases v@.len() - i,
    {
        if v[i].0.eq(name) {
            proof {
                assert(m.skip(i as int)[0] == m[i as int]);
                assert(m[i as int].0 == name@);
                assert(first_map_value(m.skip(i as int), name@) == Some(m[i as int].1));
            }
            return Some(v[i].1.clone());
        }
        i += 1;
        proof {
            assert(m.skip(i - 1)[0] == m[i - 1]);
            assert(m[i - 1].0 != name@);
            assert(m.skip(i - 1).drop_first() =~= m.skip(i as int));
            assert(first_map_value(m.skip(i - 1), name@) == first_map_value(
                m.skip(i as int),
                name@,
            ));
        }
    }
    proof {
        assert(m.skip(m.len() as int).len() == 0);
    }
    None
}

/// The map with every entry of the given name removed.
pub fn remove_map_entries(v: &Vec<(String, String)>, name: &String) -> (r: Vec<(String, String)>)
    ensures
        r.deep_view() == map_without(v.deep_view(), name@),
{
    let ghost m = v.deep_view();
    let mut out: Vec<(String, String)> = Vec::new();
    let mut i: usize = 0;
    proof {
        assert(m.take(0) =~= Seq::<(Seq<char>, Seq<char>)>::empty());
        assert(map_without(m.take(0), name@) =~= Seq::<(Seq<char>, Seq<char>)>::empty()) by {
            reveal_with_fuel(Seq::<_>::filter, 1);
        }
        assert(out.deep_view() =~= Seq::<(Seq<char>, Seq<char>)>::empty());
    }
    while i < v.len()
        invariant
            m == v.deep_view(),
            i <= v@.len(),
            out.deep_view() == map_without(m.take(i as int), name@),
        decreases v@.len() - i,
    {
        let ghost before = out.deep_view();
        let keep = !v[i].0.eq(name);
        if keep {
            let name2 = v[i].0.clone();
            let val = v[i].1.clone();
            push_pair(&mut out, name2, val);
        }
        i += 1;
        proof {
            let prev = m.take(i - 1);
            let now = m.take(i as int);
            assert(now.drop_last() =~= prev);
            assert(now.last() == m[i - 1]);
            assert(m[i - 1] == v@[i - 1].deep_view());
            assert(m[i - 1].0 == v@[i - 1].0@);
            assert(map_without(now, name@) == (if m[i - 1].0 != name@ {
                map_without(prev, name@).push(m[i - 1])
            } else {
                map_without(prev, name@)
            })) by {
                reveal_with_fuel(Seq::<_>::filter, 2);
            }
            if keep {
                assert(out.deep_view() == before.push((v@[i - 1].0@, v@[i - 1].1@)));
                assert((v@[i - 1].0@, v@[i - 1].1@) == m[i - 1]);
            }
        }
    }
    proof {
        assert(m.take(m.len() as int) =~= m);
    }
    out
}


/// Owned form of a borrowed property path.
pub fn owned_path(path: &Vec<&str>) -> (r: Vec<String>)
    ensures
        r.deep_view() == path.deep_view(),
{
    let mut out: Vec<String> = Vec::new();
    let mut i: usize = 0;
    proof {
        assert(out.deep_view() =~= path.deep_view().take(0));
    }
    while i < path.len()
        invariant
            i <= path@.len(),
            out.deep_view() == path.deep_view().take(i as int),
        decreases path@.len() - i,
    {
        let s2 = path[i].to_owned();
        push_string(&mut out, s2);
        i += 1;
        proof {
            assert(path.deep_view()[i - 1] == path@[i - 1].deep_view());
            assert(path.deep_view().take(i as int) =~= path.deep_view().take(i - 1).push(
                path.deep_view()[i - 1],
            ));
        }
    }
    proof {
        assert(path.deep_view().take(path@.len() as int) =~= path.deep_view());
    }
    out
}

/// Owned form of a borrowed (name, value) map.
pub fn owned_entries(entries: &Vec<(&str, &str)>) -> (r: Vec<(String, String)>)
    ensures
        r.deep_view() == entries.deep_view(),
{
    let mut out: Vec<(String, String)> = Vec::new();
    let mut i: usize = 0;
    proof {
        assert(out.deep_view() =~= entries.deep_view().take(0));
    }
    while i < entries.len()
        invariant
            i <= entries@.len(),
            out.deep_view() == entries.deep_view().take(i as int),
        decreases entries@.len() - i,
    {
        let name = entries[i].0.to_owned();
        let val = entries[i].1.to_owned();
        push_pair(&mut out, name, val);
        i += 1;
        proof {
            assert(entries.deep_view()[i - 1] == entries@[i - 1].deep_view());
            assert(entries.deep_view().take(i as int) =~= entries.deep_view().take(i - 1).push(
                entries.deep_view()[i - 1],
            ));
        }
    }
    proof {
        assert(entries.deep_view().take(entries@.len() as int) =~= entries.deep_view());
    }
    out
}


/// Everything a map mutation leaves untouched.
pub open spec fn map_update_frame(pre: HostState, post: HostState, t: MapType) -> bool {
    &&& forall|t2: MapType| t2 != t ==> #[trigger] post.map_of(t2) == pre.map_of(t2)
    &&& forall|t2: BufferType| #[trigger] post.buffer_of(t2) == pre.buffer_of(t2)
    &&& post.call_response_active == pre.call_response_active
    &&& post.active_config == pre.active_config
    &&& post.staged_response == pre.staged_response
    &&& post.route_cache_cleared == pre.route_cache_cleared
    &&& HostState::same_contexts(pre, post)
    &&& HostState::same_shared(pre, post)
    &&& HostState::same_queues(pre, post)
    &&& HostState::same_calls(pre, post)
    &&& HostState::same_props(pre, post)
    &&& HostState::same_ident(pre, post)
}

/// Everything a buffer mutation leaves untouched.
pub open spec fn buffer_update_frame(pre: HostState, post: HostState, t: BufferType) -> bool {
    &&& forall|t2: BufferType| t2 != t ==> #[trigger] post.buffer_of(t2) == pre.buffer_of(t2)
    &&& forall|t2: MapType| #[trigger] post.map_of(t2) == pre.map_of(t2)
    &&& post.call_response_active == pre.call_response_active
    &&& post.active_config == pre.active_config
    &&& post.staged_response == pre.staged_response
    &&& post.route_cache_cleared == pre.route_cache_cleared
    &&& HostState::same_contexts(pre, post)
    &&& HostState::same_shared(pre, post)
    &&& HostState::same_queues(pre, post)
    &&& HostState::same_calls(pre, post)
    &&& HostState::same_props(pre, post)
    &&& HostState::same_ident(pre, post)
}

} // verus!
