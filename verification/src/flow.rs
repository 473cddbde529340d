//! The cooperative pause/resume state machine.
//!
//! Returning a Stop-family status is the only suspension primitive: the
//! status a callback returns transitions the per-direction pipeline state
//! the host keeps for that context, and `resume_*` is the plugin-initiated
//! way back from `Paused` to `Open`. A synthetic response short-circuits
//! the exchange instead.

use vstd::prelude::*;

use crate::host::{bytes_of_slice, ctx_key, CtxRec, HostState};
use crate::table::lemma_key_index_is;
use crate::types::{
    ContextRole, FilterDataStatus, FilterHeadersStatus, FilterStatus, FilterTrailersStatus,
    FlowState, PeerType, Status, StreamType,
};

verus! {

/// The pipeline state a header-phase status transitions to.
pub open spec fn headers_flow(s: FilterHeadersStatus) -> FlowState {
    match s {
        FilterHeadersStatus::Continue => FlowState::Open,
        FilterHeadersStatus::ContinueAndEndStream => FlowState::Open,
        FilterHeadersStatus::StopIteration => FlowState::Paused,
        FilterHeadersStatus::StopAllIterationAndBuffer => FlowState::Paused,
        FilterHeadersStatus::StopAllIterationAndWatermark => FlowState::Paused,
    }
}

/// The pipeline state a body-phase status transitions to.
pub open spec fn data_flow(s: FilterDataStatus) -> FlowState {
    match s {
        FilterDataStatus::Continue => FlowState::Open,
        FilterDataStatus::StopIterationAndBuffer => FlowState::Paused,
        FilterDataStatus::StopIterationAndWatermark => FlowState::Paused,
        FilterDataStatus::StopIterationNoBuffer => FlowState::Paused,
    }
}

/// The pipeline state a trailer-phase status transitions to.
pub open spec fn trailers_flow(s: FilterTrailersStatus) -> FlowState {
    match s {
        FilterTrailersStatus::Continue => FlowState::Open,
        FilterTrailersStatus::StopIteration => FlowState::Paused,
    }
}

/// The pipeline state a raw-stream status transitions to.
pub open spec fn stream_flow(s: FilterStatus) -> FlowState {
    match s {
        FilterStatus::Continue => FlowState::Open,
        FilterStatus::StopIteration => FlowState::Paused,
    }
}

/// An HTTP phase pipeline.
pub open spec fn http_dir(dir: StreamType) -> bool {
    dir is HttpRequest || dir is HttpResponse
}

/// A raw stream direction.
pub open spec fn stream_dir(dir: StreamType) -> bool {
    dir is Downstream || dir is Upstream
}

/// The record with the pipeline of `dir` moved to `f`.
pub open spec fn with_flow(rec: CtxRec, dir: StreamType, f: FlowState) -> CtxRec {
    match dir {
        StreamType::HttpRequest => CtxRec { req_flow: f, ..rec },
        StreamType::HttpResponse => CtxRec { resp_flow: f, ..rec },
        StreamType::Downstream => CtxRec { down_flow: f, ..rec },
        StreamType::Upstream => CtxRec { up_flow: f, ..rec },
    }
}

impl HostState {
    /// The pipeline state a context's direction is in.
    pub open spec fn flow_of(self, id: u32, dir: StreamType) -> FlowState {
        match dir {
            StreamType::HttpRequest => self.ctx(id).req_flow,
            StreamType::HttpResponse => self.ctx(id).resp_flow,
            StreamType::Downstream => self.ctx(id).down_flow,
            StreamType::Upstream => self.ctx(id).up_flow,
        }
    }

    /// Common part of the transition operations: replaces the pipeline
    /// state of one direction of a context of the expected role.
    fn set_flow(&mut self, id: u32, dir: StreamType, role: ContextRole, f: FlowState) -> (r:
        Result<(), Status>)
        requires
            old(self).wf(),
        ensures
            final(self).wf(),
            r is Ok <==> old(self).ctx_exists(id) && old(self).ctx(id).role == role,
            r is Err ==> r == Result::<(), Status>::Err(Status::BadArgument) && *final(self)
                == *old(self),
            r is Ok ==> {
                &&& final(self).ctx_exists(id)
                &&& final(self).ctx(id) == with_flow(old(self).ctx(id), dir, f)
                &&& forall|id2: u32|
                    id2 != id ==> #[trigger] final(self).ctx_exists(id2) == old(self).ctx_exists(
                        id2,
                    )
                &&& forall|id2: u32|
                    id2 != id && old(self).ctx_exists(id2) ==> #[trigger] final(self).ctx(id2)
                        == old(self).ctx(id2)
                &&& final(self).next_context_id == old(self).next_context_id
                &&& final(self).current == old(self).current
                &&& HostState::same_shared(*old(self), *final(self))
                &&& HostState::same_queues(*old(self), *final(self))
                &&& HostState::same_calls(*old(self), *final(self))
                &&& HostState::same_props(*old(self), *final(self))
                &&& HostState::same_staging(*old(self), *final(self))
                &&& HostState::same_ident(*old(self), *final(self))
            },
    {
        match self.find_ctx(id) {
            Some(i) => {
                proof {
                    lemma_key_index_is(self.contexts@, ctx_key(), i as int);
                }
                let mut rec = self.contexts[i];
                if rec.role != role {
                    return Err(Status::BadArgument);
                }
                match dir {
                    StreamType::HttpRequest => {
                        rec.req_flow = f;
                    },
                    StreamType::HttpResponse => {
                        rec.resp_flow = f;
                    },
                    StreamType::Downstream => {
                        rec.down_flow = f;
                    },
                    StreamType::Upstream => {
                        rec.up_flow = f;
                    },
                }
                self.set_ctx(i, rec);
                Ok(())
            },
            None => Err(Status::BadArgument),
        }
    }

    /// Host-side: applies the status a header-phase callback returned to
    /// the addressed HTTP pipeline.
    pub fn apply_headers_status(&mut self, id: u32, dir: StreamType, s: FilterHeadersStatus) -> (r:
        Result<(), Status>)
        requires
            old(self).wf(),
        ensures
            final(self).wf(),
            r is Ok <==> old(self).ctx_exists(id) && old(self).ctx(id).role == ContextRole::Http
                && http_dir(dir),
            r is Err ==> r == Result::<(), Status>::Err(Status::BadArgument) && *final(self)
                == *old(self),
            r is Ok ==> {
                &&& final(self).ctx(id) == with_flow(old(self).ctx(id), dir, headers_flow(s))
                &&& forall|id2: u32|
                    id2 != id ==> #[trigger] final(self).ctx_exists(id2) == old(self).ctx_exists(
                        id2,
                    )
                &&& forall|id2: u32|
                    id2 != id && old(self).ctx_exists(id2) ==> #[trigger] final(self).ctx(id2)
                        == old(self).ctx(id2)
                &&& final(self).current == old(self).current
                &&& HostState::same_shared(*old(self), *final(self))
                &&& HostState::same_queues(*old(self), *final(self))
                &&& HostState::same_calls(*old(self), *final(self))
                &&& HostState::same_props(*old(self), *final(self))
                &&& HostState::same_staging(*old(self), *final(self))
                &&& HostState::same_ident(*old(self), *final(self))
            },
    {
        if !matches!(dir, StreamType::HttpRequest | StreamType::HttpResponse) {
            return Err(Status::BadArgument);
        }
        self.set_flow(id, dir, ContextRole::Http, exec_headers_flow(s))
    }

    /// Host-side: applies the status a body-phase callback returned.
    pub fn apply_data_status(&mut self, id: u32, dir: StreamType, s: FilterDataStatus) -> (r:
        Result<(), Status>)
        requires
            old(self).wf(),
        ensures
            final(self).wf(),
            r is Ok <==> old(self).ctx_exists(id) && old(self).ctx(id).role == ContextRole::Http
                && http_dir(dir),
            r is Err ==> r == Result::<(), Status>::Err(Status::BadArgument) && *final(self)
                == *old(self),
            r is Ok ==> {
                &&& final(self).ctx(id) == with_flow(old(self).ctx(id), dir, data_flow(s))
                &&& forall|id2: u32|
                    id2 != id ==> #[trigger] final(self).ctx_exists(id2) == old(self).ctx_exists(
                        id2,
                    )
                &&& forall|id2: u32|
                    id2 != id && old(self).ctx_exists(id2) ==> #[trigger] final(self).ctx(id2)
                        == old(self).ctx(id2)
                &&& final(self).current == old(self).current
                &&& HostState::same_shared(*old(self), *final(self))
                &&& HostState::same_queues(*old(self), *final(self))
                &&& HostState::same_calls(*old(self), *final(self))
                &&& HostState::same_props(*old(self), *final(self))
                &&& HostState::same_staging(*old(self), *final(self))
                &&& HostState::same_ident(*old(self), *final(self))
            },
    {
        if !matches!(dir, StreamType::HttpRequest | StreamType::HttpResponse) {
            return Err(Status::BadArgument);
        }
        let f = match s {
            FilterDataStatus::Continue => FlowState::Open,
            _ => FlowState::Paused,
        };
        self.set_flow(id, dir, ContextRole::Http, f)
    }

    /// Host-side: applies the status a trailer-phase callback returned.
    pub fn apply_trailers_status(&mut self, id: u32, dir: StreamType, s: FilterTrailersStatus)
        -> (r: Result<(), Status>)
        requires
            old(self).wf(),
        ensures
            final(self).wf(),
            r is Ok <==> old(self).ctx_exists(id) && old(self).ctx(id).role == ContextRole::Http
                && http_dir(dir),
            r is Err ==> r == Result::<(), Status>::Err(Status::BadArgument) && *final(self)
                == *old(self),
            r is Ok ==> {
                &&& final(self).ctx(id) == with_flow(old(self).ctx(id), dir, trailers_flow(s))
                &&& forall|id2: u32|
                    id2 != id ==> #[trigger] final(self).ctx_exists(id2) == old(self).ctx_exists(
                        id2,
                    )
                &&& forall|id2: u32|
                    id2 != id && old(self).ctx_exists(id2) ==> #[trigger] final(self).ctx(id2)
                        == old(self).ctx(id2)
                &&& final(self).current == old(self).current
                &&& HostState::same_shared(*old(self), *final(self))
                &&& HostState::same_queues(*old(self), *final(self))
                &&& HostState::same_calls(*old(self), *final(self))
                &&& HostState::same_props(*old(self), *final(self))
                &&& HostState::same_staging(*old(self), *final(self))
                &&& HostState::same_ident(*old(self), *final(self))
            },
    {
        if !matches!(dir, StreamType::HttpRequest | StreamType::HttpResponse) {
            return Err(Status::BadArgument);
        }
        let f = match s {
            FilterTrailersStatus::Continue => FlowState::Open,
            FilterTrailersStatus::StopIteration => FlowState::Paused,
        };
        self.set_flow(id, dir, ContextRole::Http, f)
    }

    /// Host-side: applies the status a raw-stream callback returned to the
    /// addressed direction.
    pub fn apply_stream_status(&mut self, id: u32, dir: StreamType, s: FilterStatus) -> (r: Result<
        (),
        Status,
    >)
        requires
            old(self).wf(),
        ensures
            final(self).wf(),
            r is Ok <==> old(self).ctx_exists(id) && old(self).ctx(id).role == ContextRole::Stream
                && stream_dir(dir),
            r is Err ==> r == Result::<(), Status>::Err(Status::BadArgument) && *final(self)
                == *old(self),
            r is Ok ==> {
                &&& final(self).ctx(id) == with_flow(old(self).ctx(id), dir, stream_flow(s))
                &&& forall|id2: u32|
                    id2 != id ==> #[trigger] final(self).ctx_exists(id2) == old(self).ctx_exists(
                        id2,
                    )
                &&& forall|id2: u32|
                    id2 != id && old(self).ctx_exists(id2) ==> #[trigger] final(self).ctx(id2)
                        == old(self).ctx(id2)
                &&& final(self).current == old(self).current
                &&& HostState::same_shared(*old(self), *final(self))
                &&& HostState::same_queues(*old(self), *final(self))
                &&& HostState::same_calls(*old(self), *final(self))
                &&& HostState::same_props(*old(self), *final(self))
                &&& HostState::same_staging(*old(self), *final(self))
                &&& HostState::same_ident(*old(self), *final(self))
            },
    {
        if !matches!(dir, StreamType::Downstream | StreamType::Upstream) {
            return Err(Status::BadArgument);
        }
        let f = match s {
            FilterStatus::Continue => FlowState::Open,
            FilterStatus::StopIteration => FlowState::Paused,
        };
        self.set_flow(id, dir, ContextRole::Stream, f)
    }

    /// Host-side: one direction of a stream reported closure; the peer
    /// that closed it does not affect the transition.
    pub fn close_stream_direction(&mut self, id: u32, dir: StreamType, _peer: PeerType) -> (r:
        Result<(), Status>)
        requires
            old(self).wf(),
        ensures
            final(self).wf(),
            r is Ok <==> old(self).ctx_exists(id) && old(self).ctx(id).role == ContextRole::Stream
                && stream_dir(dir),
            r is Err ==> r == Result::<(), Status>::Err(Status::BadArgument) && *final(self)
                == *old(self),
            r is Ok ==> {
                &&& final(self).ctx(id) == with_flow(old(self).ctx(id), dir, FlowState::Closed)
                &&& forall|id2: u32|
                    id2 != id ==> #[trigger] final(self).ctx_exists(id2) == old(self).ctx_exists(
                        id2,
                    )
                &&& forall|id2: u32|
                    id2 != id && old(self).ctx_exists(id2) ==> #[trigger] final(self).ctx(id2)
                        == old(self).ctx(id2)
                &&& final(self).current == old(self).current
                &&& HostState::same_shared(*old(self), *final(self))
                &&& HostState::same_queues(*old(self), *final(self))
                &&& HostState::same_calls(*old(self), *final(self))
                &&& HostState::same_props(*old(self), *final(self))
                &&& HostState::same_staging(*old(self), *final(self))
                &&& HostState::same_ident(*old(self), *final(self))
            },
    {
        if !matches!(dir, StreamType::Downstream | StreamType::Upstream) {
            return Err(Status::BadArgument);
        }
        self.set_flow(id, dir, ContextRole::Stream, FlowState::Closed)
    }

    /// Plugin-initiated re-entry of a paused pipeline; from any other
    /// state it is a no-op.
    fn resume_flow(&mut self, dir: StreamType) -> (r: Result<(), Status>)
        requires
            old(self).wf(),
            http_dir(dir),
        ensures
            final(self).wf(),
            r is Ok <==> old(self).cur_live() && old(self).ctx(old(self).cur_id()).role
                == ContextRole::Http,
            r is Err ==> r == Result::<(), Status>::Err(Status::BadArgument) && *final(self)
                == *old(self),
            r is Ok ==> {
                &&& (old(self).flow_of(old(self).cur_id(), dir) == FlowState::Paused ==> final(self).ctx(old(self).cur_id()) == with_flow(
                    old(self).ctx(old(self).cur_id()),
                    dir,
                    FlowState::Open,
                ))
                &&& (old(self).flow_of(old(self).cur_id(), dir) != FlowState::Paused ==> *final(self) == *old(self))
                &&& forall|id2: u32|
                    id2 != old(self).cur_id() ==> #[trigger] final(self).ctx_exists(id2) == old(self).ctx_exists(id2)
                &&& forall|id2: u32|
                    id2 != old(self).cur_id() && old(self).ctx_exists(id2) ==> #[trigger] final(self).ctx(id2) == old(self).ctx(id2)
                &&& final(self).current == old(self).current
                &&& HostState::same_shared(*old(self), *final(self))
                &&& HostState::same_queues(*old(self), *final(self))
                &&& HostState::same_calls(*old(self), *final(self))
                &&& HostState::same_props(*old(self), *final(self))
                &&& HostState::same_staging(*old(self), *final(self))
                &&& HostState::same_ident(*old(self), *final(self))
            },
    {
        if !self.current_live() {
            return Err(Status::BadArgument);
        }
        let id = match self.current {
            Some(id) => id,
            None => {
                return Err(Status::BadArgument);
            },
        };
        match self.find_ctx(id) {
            Some(i) => {
                proof {
                    lemma_key_index_is(self.contexts@, ctx_key(), i as int);
                }
                let mut rec = self.contexts[i];
                if rec.role != ContextRole::Http {
                    return Err(Status::BadArgument);
                }
                let paused = match dir {
                    StreamType::HttpRequest => matches!(rec.req_flow, FlowState::Paused),
                    _ => matches!(rec.resp_flow, FlowState::Paused),
                };
                if paused {
                    match dir {
                        StreamType::HttpRequest => {
                            rec.req_flow = FlowState::Open;
                        },
                        _ => {
                            rec.resp_flow = FlowState::Open;
                        },
                    }
                    self.set_ctx(i, rec);
                }
                Ok(())
            },
            None => Err(Status::BadArgument),
        }
    }

    /// Resumes the paused request pipeline of the executing HTTP context.
    pub fn resume_http_request(&mut self) -> (r: Result<(), Status>)
        requires
            old(self).wf(),
        ensures
            final(self).wf(),
            r is Ok <==> old(self).cur_live() && old(self).ctx(old(self).cur_id()).role
                == ContextRole::Http,
            r is Err ==> r == Result::<(), Status>::Err(Status::BadArgument) && *final(self)
                == *old(self),
            r is Ok ==> {
                &&& (old(self).flow_of(old(self).cur_id(), StreamType::HttpRequest)
                    == FlowState::Paused ==> final(self).ctx(old(self).cur_id()) == with_flow(
                    old(self).ctx(old(self).cur_id()),
                    StreamType::HttpRequest,
                    FlowState::Open,
                ))
                &&& (old(self).flow_of(old(self).cur_id(), StreamType::HttpRequest)
                    != FlowState::Paused ==> *final(self) == *old(self))
                &&& forall|id2: u32|
                    id2 != old(self).cur_id() ==> #[trigger] final(self).ctx_exists(id2) == old(self).ctx_exists(id2)
                &&& forall|id2: u32|
                    id2 != old(self).cur_id() && old(self).ctx_exists(id2) ==> #[trigger] final(self).ctx(id2) == old(self).ctx(id2)
                &&& final(self).current == old(self).current
                &&& HostState::same_shared(*old(self), *final(self))
                &&& HostState::same_queues(*old(self), *final(self))
                &&& HostState::same_calls(*old(self), *final(self))
                &&& HostState::same_props(*old(self), *final(self))
                &&& HostState::same_staging(*old(self), *final(self))
                &&& HostState::same_ident(*old(self), *final(self))
            },
    {
        self.resume_flow(StreamType::HttpRequest)
    }

    /// Resumes the paused response pipeline of the executing HTTP context.
    pub fn resume_http_response(&mut self) -> (r: Result<(), Status>)
        requires
            old(self).wf(),
        ensures
            final(self).wf(),
            r is Ok <==> old(self).cur_live() && old(self).ctx(old(self).cur_id()).role
                == ContextRole::Http,
            r is Err ==> r == Result::<(), Status>::Err(Status::BadArgument) && *final(self)
                == *old(self),
            r is Ok ==> {
                &&& (old(self).flow_of(old(self).cur_id(), StreamType::HttpResponse)
                    == FlowState::Paused ==> final(self).ctx(old(self).cur_id()) == with_flow(
                    old(self).ctx(old(self).cur_id()),
                    StreamType::HttpResponse,
                    FlowState::Open,
                ))
                &&& (old(self).flow_of(old(self).cur_id(), StreamType::HttpResponse)
                    != FlowState::Paused ==> *final(self) == *old(self))
                &&& forall|id2: u32|
                    id2 != old(self).cur_id() ==> #[trigger] final(self).ctx_exists(id2) == old(self).ctx_exists(id2)
                &&& forall|id2: u32|
                    id2 != old(self).cur_id() && old(self).ctx_exists(id2) ==> #[trigger] final(self).ctx(id2) == old(self).ctx(id2)
                &&& final(self).current == old(self).current
                &&& HostState::same_shared(*old(self), *final(self))
                &&& HostState::same_queues(*old(self), *final(self))
                &&& HostState::same_calls(*old(self), *final(self))
                &&& HostState::same_props(*old(self), *final(self))
                &&& HostState::same_staging(*old(self), *final(self))
                &&& HostState::same_ident(*old(self), *final(self))
            },
    {
        self.resume_flow(StreamType::HttpResponse)
    }

    /// Short-circuits the exchange of the executing HTTP context: the
    /// synthetic response is staged for the host to deliver instead, and
    /// normal pipeline progression for this exchange ends here.
    pub fn send_http_response(
        &mut self,
        status_code: u32,
        headers: Vec<(String, String)>,
        body: Option<&[u8]>,
    ) -> (r: Result<(), Status>)
        requires
            old(self).wf(),
        ensures
            final(self).wf(),
            r is Ok <==> old(self).cur_live() && old(self).ctx(old(self).cur_id()).role
                == ContextRole::Http,
            r is Err ==> r == Result::<(), Status>::Err(Status::BadArgument) && *final(self)
                == *old(self),
            r is Ok ==> {
                &&& (match final(self).staged_response {
                    Some(t) => t.0 == status_code && t.1 == headers && t.2@ == (match body {
                        Some(b) => b@,
                        None => Seq::<u8>::empty(),
                    }),
                    None => false,
                })
                &&& final(self).ctx(old(self).cur_id()) == (CtxRec {
                    short_circuited: true,
                    ..old(self).ctx(old(self).cur_id())
                })
                &&& forall|id2: u32|
                    id2 != old(self).cur_id() ==> #[trigger] final(self).ctx_exists(id2) == old(self).ctx_exists(id2)
                &&& forall|id2: u32|
                    id2 != old(self).cur_id() && old(self).ctx_exists(id2) ==> #[trigger] final(self).ctx(id2) == old(self).ctx(id2)
                &&& final(self).current == old(self).current
                &&& forall|t2: crate::types::BufferType| #[trigger] final(self).buffer_of(t2)
                    == old(self).buffer_of(t2)
                &&& forall|t2: crate::types::MapType| #[trigger] final(self).map_of(t2) == old(self).map_of(t2)
                &&& final(self).call_response_active == old(self).call_response_active
                &&& final(self).active_config == old(self).active_config
                &&& final(self).route_cache_cleared == old(self).route_cache_cleared
                &&& HostState::same_shared(*old(self), *final(self))
                &&& HostState::same_queues(*old(self), *final(self))
                &&& HostState::same_calls(*old(self), *final(self))
                &&& HostState::same_props(*old(self), *final(self))
                &&& HostState::same_ident(*old(self), *final(self))
            },
    {
        if !self.current_live() {
            return Err(Status::BadArgument);
        }
        let id = match self.current {
            Some(id) => id,
            None => {
                return Err(Status::BadArgument);
            },
        };
        match self.find_ctx(id) {
            Some(i) => {
                proof {
                    lemma_key_index_is(self.contexts@, ctx_key(), i as int);
                }
                let mut rec = self.contexts[i];
                if rec.role != ContextRole::Http {
                    return Err(Status::BadArgument);
                }
                let stored: Vec<u8> = match body {
                    Some(b) => bytes_of_slice(b),
                    None => Vec::new(),
                };
                self.staged_response = Some((status_code, headers, stored));
                rec.short_circuited = true;
                self.set_ctx(i, rec);
                Ok(())
            },
            None => Err(Status::BadArgument),
        }
    }

    /// Invalidates the routing decision after the executing HTTP context
    /// mutated a header it was derived from.
    pub fn clear_http_route_cache(&mut self) -> (r: Result<(), Status>)
        requires
            old(self).wf(),
        ensures
            final(self).wf(),
            r is Ok <==> old(self).cur_live() && old(self).ctx(old(self).cur_id()).role
                == ContextRole::Http,
            r is Err ==> r == Result::<(), Status>::Err(Status::BadArgument) && *final(self)
                == *old(self),
            r is Ok ==> *final(self) == (HostState { route_cache_cleared: true, ..*old(self) }),
    {
        if !self.current_live() {
            return Err(Status::BadArgument);
        }
        let id = match self.current {
            Some(id) => id,
            None => {
                return Err(Status::BadArgument);
            },
        };
        match self.find_ctx(id) {
            Some(i) => {
                proof {
                    lemma_key_index_is(self.contexts@, ctx_key(), i as int);
                }
                if self.contexts[i].role != ContextRole::Http {
                    return Err(Status::BadArgument);
                }
                self.route_cache_cleared = true;
                Ok(())
            },
            None => Err(Status::BadArgument),
        }
    }

    /// Host-side: stages the instance-level configuration payload and
    /// makes it the one readable during the startup callback.
    pub fn stage_vm_config(&mut self, cfg: Vec<u8>)
        requires
            old(self).wf(),
        ensures
            final(self).wf(),
            final(self).vm_config == cfg,
            (match final(self).active_config {
                Some(b) => b@ == cfg@,
                None => false,
            }),
            final(self).plugin_config == old(self).plugin_config,
            final(self).request_body == old(self).request_body,
            final(self).response_body == old(self).response_body,
            final(self).downstream_data == old(self).downstream_data,
            final(self).upstream_data == old(self).upstream_data,
            final(self).call_response_body == old(self).call_response_body,
            final(self).call_data == old(self).call_data,
            final(self).request_headers == old(self).request_headers,
            final(self).request_trailers == old(self).request_trailers,
            final(self).response_headers == old(self).response_headers,
            final(self).response_trailers == old(self).response_trailers,
            final(self).call_response_headers == old(self).call_response_headers,
            final(self).call_response_trailers == old(self).call_response_trailers,
            final(self).call_response_active == old(self).call_response_active,
            final(self).staged_response == old(self).staged_response,
            final(self).route_cache_cleared == old(self).route_cache_cleared,
            HostState::same_contexts(*old(self), *final(self)),
            HostState::same_shared(*old(self), *final(self)),
            HostState::same_queues(*old(self), *final(self)),
            HostState::same_calls(*old(self), *final(self)),
            HostState::same_props(*old(self), *final(self)),
            HostState::same_ident(*old(self), *final(self)),
    {
        let copy = crate::host::clone_bytes(&cfg);
        self.vm_config = cfg;
        self.active_config = Some(copy);
    }

    /// Host-side: stages the plugin-level configuration payload and makes
    /// it the one readable during the configuration callback.
    pub fn stage_plugin_config(&mut self, cfg: Vec<u8>)
        requires
            old(self).wf(),
        ensures
            final(self).wf(),
            final(self).plugin_config == cfg,
            (match final(self).active_config {
                Some(b) => b@ == cfg@,
                None => false,
            }),
            final(self).vm_config == old(self).vm_config,
            final(self).request_body == old(self).request_body,
            final(self).response_body == old(self).response_body,
            final(self).downstream_data == old(self).downstream_data,
            final(self).upstream_data == old(self).upstream_data,
            final(self).call_response_body == old(self).call_response_body,
            final(self).call_data == old(self).call_data,
            final(self).request_headers == old(self).request_headers,
            final(self).request_trailers == old(self).request_trailers,
            final(self).response_headers == old(self).response_headers,
            final(self).response_trailers == old(self).response_trailers,
            final(self).call_response_headers == old(self).call_response_headers,
            final(self).call_response_trailers == old(self).call_response_trailers,
            final(self).call_response_active == old(self).call_response_active,
            final(self).staged_response == old(self).staged_response,
            final(self).route_cache_cleared == old(self).route_cache_cleared,
            HostState::same_contexts(*old(self), *final(self)),
            HostState::same_shared(*old(self), *final(self)),
            HostState::same_queues(*old(self), *final(self)),
            HostState::same_calls(*old(self), *final(self)),
            HostState::same_props(*old(self), *final(self)),
            HostState::same_ident(*old(self), *final(self)),
    {
        let copy = crate::host::clone_bytes(&cfg);
        self.plugin_config = cfg;
        self.active_config = Some(copy);
    }
}

/// Executable form of `headers_flow`.
fn exec_headers_flow(s: FilterHeadersStatus) -> (f: FlowState)
    ensures
        f == headers_flow(s),
{
    match s {
        FilterHeadersStatus::Continue => FlowState::Open,
        FilterHeadersStatus::ContinueAndEndStream => FlowState::Open,
        FilterHeadersStatus::StopIteration => FlowState::Paused,
        FilterHeadersStatus::StopAllIterationAndBuffer => FlowState::Paused,
        FilterHeadersStatus::StopAllIterationAndWatermark => FlowState::Paused,
    }
}

} // verus!
