//! Context lifecycle and registry operations of the host facade: creation
//! of the root and child contexts, callback serialization, the terminal
//! event, the done signal, and the root context's timer.

use vstd::prelude::*;

use crate::table::{has_key, lemma_key_index_is, lemma_push_keeps_others,
    lemma_update_keeps_others};
use crate::types::{ContextRole, FlowState, Status};
use crate::host::{ctx_key, CtxRec, HostState};

verus! {

/// The registry record every freshly created context starts from: live,
/// every pipeline open, no timer, nothing requested.
pub open spec fn fresh_ctx(id: u32, role: ContextRole) -> CtxRec {
    CtxRec {
        id,
        role,
        live: true,
        done_requested: false,
        down_flow: FlowState::Open,
        up_flow: FlowState::Open,
        req_flow: FlowState::Open,
        resp_flow: FlowState::Open,
        short_circuited: false,
        tick_ms: 0,
    }
}

impl HostState {
    // ----- context registry operations -----

    /// Point update of one context record, keeping id and role.
    pub(crate) fn set_ctx(&mut self, i: usize, rec: CtxRec)
        requires
            old(self).wf(),
            i < old(self).contexts@.len(),
            rec.id == old(self).contexts@[i as int].id,
            rec.role == old(self).contexts@[i as int].role,
        ensures
            final(self).wf(),
            final(self).ctx_exists(rec.id),
            final(self).ctx(rec.id) == rec,
            forall|id2: u32|
                id2 != rec.id ==> #[trigger] final(self).ctx_exists(id2) == old(self).ctx_exists(
                    id2,
                ),
            forall|id2: u32|
                id2 != rec.id && old(self).ctx_exists(id2) ==> #[trigger] final(self).ctx(id2)
                    == old(self).ctx(id2),
            final(self).contexts@.len() == old(self).contexts@.len(),
            final(self).next_context_id == old(self).next_context_id,
            final(self).current == old(self).current,
            HostState::same_shared(*old(self), *final(self)),
            HostState::same_queues(*old(self), *final(self)),
            HostState::same_calls(*old(self), *final(self)),
            HostState::same_props(*old(self), *final(self)),
            HostState::same_staging(*old(self), *final(self)),
            HostState::same_ident(*old(self), *final(self)),
    {
        let ghost pre = *self;
        self.contexts[i] = rec;
        proof {
            assert(self.contexts@ =~= pre.contexts@.update(i as int, rec));
            lemma_update_keeps_others(pre.contexts@, self.contexts@, ctx_key(), i as int);
            assert forall|id2: u32| id2 != rec.id implies #[trigger] self.ctx_exists(id2)
                == pre.ctx_exists(id2) by {
                assert(has_key(self.contexts@, ctx_key(), id2) == has_key(
                    pre.contexts@,
                    ctx_key(),
                    id2,
                ));
            }
        }
    }


    /// The registry record of a context, if one was created under the id.
    pub fn context_record(&self, id: u32) -> (r: Option<CtxRec>)
        requires
            self.wf(),
        ensures
            match r {
                Some(rec) => self.ctx_exists(id) && rec == self.ctx(id),
                None => !self.ctx_exists(id),
            },
    {
        match self.find_ctx(id) {
            Some(i) => {
                proof {
                    lemma_key_index_is(self.contexts@, ctx_key(), i as int);
                }
                Some(self.contexts[i])
            },
            None => None,
        }
    }

    /// Whether no callback is executing right now.
    pub fn idle(&self) -> (r: bool)
        ensures
            r == (self.current is None),
    {
        match self.current {
            Some(_) => false,
            None => true,
        }
    }

    /// Creates the one root context of the plugin instance. Fails if a
    /// context already exists: the root is created first and only once.
    pub fn create_root_context(&mut self) -> (r: Result<u32, Status>)
        requires
            old(self).wf(),
        ensures
            final(self).wf(),
            old(self).contexts@.len() > 0 ==> r == Result::<u32, Status>::Err(Status::BadArgument)
                && *final(self) == *old(self),
            old(self).contexts@.len() == 0 && old(self).next_context_id == u32::MAX ==> r
                == Result::<u32, Status>::Err(Status::InternalFailure) && *final(self) == *old(self),
            old(self).contexts@.len() == 0 && old(self).next_context_id < u32::MAX ==> {
                &&& r == Result::<u32, Status>::Ok(old(self).next_context_id)
                &&& final(self).ctx_exists(old(self).next_context_id)
                &&& final(self).ctx(old(self).next_context_id) == fresh_ctx(
                    old(self).next_context_id,
                    ContextRole::Root,
                )
                &&& final(self).ctx_live(old(self).next_context_id)
                &&& final(self).contexts@.len() == 1
                &&& final(self).next_context_id == old(self).next_context_id + 1
                &&& final(self).current == old(self).current
                &&& HostState::same_shared(*old(self), *final(self))
                &&& HostState::same_queues(*old(self), *final(self))
                &&& HostState::same_calls(*old(self), *final(self))
                &&& HostState::same_props(*old(self), *final(self))
                &&& HostState::same_staging(*old(self), *final(self))
                &&& HostState::same_ident(*old(self), *final(self))
            },
    {
        if self.contexts.len() > 0 {
            return Err(Status::BadArgument);
        }
        if self.next_context_id == u32::MAX {
            return Err(Status::InternalFailure);
        }
        let ghost pre = *self;
        let id = self.next_context_id;
        self.contexts.push(
            CtxRec {
                id,
                role: ContextRole::Root,
                live: true,
                done_requested: false,
                down_flow: FlowState::Open,
                up_flow: FlowState::Open,
                req_flow: FlowState::Open,
                resp_flow: FlowState::Open,
                short_circuited: false,
                tick_ms: 0,
            },
        );
        self.next_context_id = id + 1;
        proof {
            assert(self.contexts@ =~= pre.contexts@.push(self.contexts@.last()));
            lemma_push_keeps_others(pre.contexts@, self.contexts@, ctx_key());
        }
        Ok(id)
    }

    /// Creates a child context of the given non-root role. Fails until the
    /// root context exists.
    fn create_child_context(&mut self, role: ContextRole) -> (r: Result<u32, Status>)
        requires
            old(self).wf(),
            role != ContextRole::Root,
        ensures
            final(self).wf(),
            old(self).contexts@.len() == 0 ==> r == Result::<u32, Status>::Err(Status::BadArgument)
                && *final(self) == *old(self),
            old(self).contexts@.len() > 0 && old(self).next_context_id == u32::MAX ==> r
                == Result::<u32, Status>::Err(Status::InternalFailure) && *final(self) == *old(self),
            old(self).contexts@.len() > 0 && old(self).next_context_id < u32::MAX ==> {
                &&& r == Result::<u32, Status>::Ok(old(self).next_context_id)
                &&& !old(self).ctx_exists(old(self).next_context_id)
                &&& final(self).ctx_exists(old(self).next_context_id)
                &&& final(self).ctx(old(self).next_context_id) == fresh_ctx(
                    old(self).next_context_id,
                    role,
                )
                &&& final(self).ctx_live(old(self).next_context_id)
                &&& forall|id2: u32|
                    id2 != old(self).next_context_id ==> #[trigger] final(self).ctx_exists(id2)
                        == old(self).ctx_exists(id2)
                &&& forall|id2: u32|
                    id2 != old(self).next_context_id && old(self).ctx_exists(id2)
                        ==> #[trigger] final(self).ctx(id2) == old(self).ctx(id2)
                &&& final(self).next_context_id == old(self).next_context_id + 1
                &&& final(self).current == old(self).current
                &&& HostState::same_shared(*old(self), *final(self))
                &&& HostState::same_queues(*old(self), *final(self))
                &&& HostState::same_calls(*old(self), *final(self))
                &&& HostState::same_props(*old(self), *final(self))
                &&& HostState::same_staging(*old(self), *final(self))
                &&& HostState::same_ident(*old(self), *final(self))
            },
    {
        if self.contexts.len() == 0 {
            return Err(Status::BadArgument);
        }
        if self.next_context_id == u32::MAX {
            return Err(Status::InternalFailure);
        }
        let ghost pre = *self;
        let id = self.next_context_id;
        self.contexts.push(
            CtxRec {
                id,
                role,
                live: true,
                done_requested: false,
                down_flow: FlowState::Open,
                up_flow: FlowState::Open,
                req_flow: FlowState::Open,
                resp_flow: FlowState::Open,
                short_circuited: false,
                tick_ms: 0,
            },
        );
        self.next_context_id = id + 1;
        proof {
            assert forall|m: int| 0 <= m < pre.contexts@.len() implies (#[trigger] pre.contexts@[
                m
            ].id) != id by {}
            assert(!pre.ctx_exists(id));
            assert(self.contexts@ =~= pre.contexts@.push(self.contexts@.last()));
            lemma_push_keeps_others(pre.contexts@, self.contexts@, ctx_key());
            assert forall|id2: u32| id2 != id implies #[trigger] self.ctx_exists(id2)
                == pre.ctx_exists(id2) by {
                assert(has_key(self.contexts@, ctx_key(), id2) == has_key(
                    pre.contexts@,
                    ctx_key(),
                    id2,
                ));
            }
        }
        Ok(id)
    }

    /// Creates a stream context for a new connection.
    pub fn create_stream_context(&mut self) -> (r: Result<u32, Status>)
        requires
            old(self).wf(),
        ensures
            final(self).wf(),
            old(self).contexts@.len() == 0 ==> r == Result::<u32, Status>::Err(Status::BadArgument)
                && *final(self) == *old(self),
            old(self).contexts@.len() > 0 && old(self).next_context_id == u32::MAX ==> r
                == Result::<u32, Status>::Err(Status::InternalFailure) && *final(self) == *old(self),
            old(self).contexts@.len() > 0 && old(self).next_context_id < u32::MAX ==> {
                &&& r == Result::<u32, Status>::Ok(old(self).next_context_id)
                &&& final(self).ctx_exists(old(self).next_context_id)
                &&& final(self).ctx(old(self).next_context_id) == fresh_ctx(
                    old(self).next_context_id,
                    ContextRole::Stream,
                )
                &&& final(self).ctx_live(old(self).next_context_id)
                &&& forall|id2: u32|
                    id2 != old(self).next_context_id ==> #[trigger] final(self).ctx_exists(id2)
                        == old(self).ctx_exists(id2)
                &&& forall|id2: u32|
                    id2 != old(self).next_context_id && old(self).ctx_exists(id2)
                        ==> #[trigger] final(self).ctx(id2) == old(self).ctx(id2)
                &&& final(self).next_context_id == old(self).next_context_id + 1
                &&& final(self).current == old(self).current
                &&& HostState::same_shared(*old(self), *final(self))
                &&& HostState::same_queues(*old(self), *final(self))
                &&& HostState::same_calls(*old(self), *final(self))
                &&& HostState::same_props(*old(self), *final(self))
                &&& HostState::same_staging(*old(self), *final(self))
                &&& HostState::same_ident(*old(self), *final(self))
            },
    {
        self.create_child_context(ContextRole::Stream)
    }

    /// Creates an HTTP context for a new exchange.
    pub fn create_http_context(&mut self) -> (r: Result<u32, Status>)
        requires
            old(self).wf(),
        ensures
            final(self).wf(),
            old(self).contexts@.len() == 0 ==> r == Result::<u32, Status>::Err(Status::BadArgument)
                && *final(self) == *old(self),
            old(self).contexts@.len() > 0 && old(self).next_context_id == u32::MAX ==> r
                == Result::<u32, Status>::Err(Status::InternalFailure) && *final(self) == *old(self),
            old(self).contexts@.len() > 0 && old(self).next_context_id < u32::MAX ==> {
                &&& r == Result::<u32, Status>::Ok(old(self).next_context_id)
                &&& final(self).ctx_exists(old(self).next_context_id)
                &&& final(self).ctx(old(self).next_context_id) == fresh_ctx(
                    old(self).next_context_id,
                    ContextRole::Http,
                )
                &&& final(self).ctx_live(old(self).next_context_id)
                &&& forall|id2: u32|
                    id2 != old(self).next_context_id ==> #[trigger] final(self).ctx_exists(id2)
                        == old(self).ctx_exists(id2)
                &&& forall|id2: u32|
                    id2 != old(self).next_context_id && old(self).ctx_exists(id2)
                        ==> #[trigger] final(self).ctx(id2) == old(self).ctx(id2)
                &&& final(self).next_context_id == old(self).next_context_id + 1
                &&& final(self).current == old(self).current
                &&& HostState::same_shared(*old(self), *final(self))
                &&& HostState::same_queues(*old(self), *final(self))
                &&& HostState::same_calls(*old(self), *final(self))
                &&& HostState::same_props(*old(self), *final(self))
                &&& HostState::same_staging(*old(self), *final(self))
                &&& HostState::same_ident(*old(self), *final(self))
            },
    {
        self.create_child_context(ContextRole::Http)
    }

    /// Marks a context's callback as executing. Callbacks are serialized
    /// per instance: delivery fails while another callback is running, and
    /// for a context that is not live.
    pub fn begin_callback(&mut self, id: u32) -> (r: Result<(), Status>)
        requires
            old(self).wf(),
        ensures
            final(self).wf(),
            r is Ok <==> old(self).ctx_live(id) && old(self).current is None,
            r is Err ==> r == Result::<(), Status>::Err(Status::BadArgument) && *final(self)
                == *old(self),
            r is Ok ==> *final(self) == (HostState { current: Some(id), ..*old(self) }),
    {
        if !self.context_live(id) {
            return Err(Status::BadArgument);
        }
        match self.current {
            Some(_) => Err(Status::BadArgument),
            None => {
                self.current = Some(id);
                Ok(())
            },
        }
    }

    /// Marks the end of the current callback: the cursor clears, and the
    /// staged call response and configuration stop being readable.
    pub fn end_callback(&mut self)
        requires
            old(self).wf(),
        ensures
            final(self).wf(),
            *final(self) == (HostState {
                current: None,
                call_response_active: false,
                active_config: None,
                ..*old(self)
            }),
    {
        self.current = None;
        self.call_response_active = false;
        self.active_config = None;
    }

    /// The terminal event: after it the context is no longer live and no
    /// capability operation addressed to it succeeds again.
    pub fn finish_context(&mut self, id: u32) -> (r: Result<(), Status>)
        requires
            old(self).wf(),
        ensures
            final(self).wf(),
            r is Ok <==> old(self).ctx_live(id),
            r is Err ==> r == Result::<(), Status>::Err(Status::BadArgument) && *final(self)
                == *old(self),
            r is Ok ==> {
                &&& final(self).ctx_exists(id)
                &&& final(self).ctx(id) == (CtxRec { live: false, ..old(self).ctx(id) })
                &&& !final(self).ctx_live(id)
                &&& forall|id2: u32|
                    id2 != id ==> #[trigger] final(self).ctx_exists(id2) == old(self).ctx_exists(
                        id2,
                    )
                &&& forall|id2: u32|
                    id2 != id && old(self).ctx_exists(id2) ==> #[trigger] final(self).ctx(id2)
                        == old(self).ctx(id2)
                &&& final(self).next_context_id == old(self).next_context_id
                &&& final(self).current == old(self).current
                &&& HostState::same_shared(*old(self), *final(self))
                &&& HostState::same_queues(*old(self), *final(self))
                &&& HostState::same_calls(*old(self), *final(self))
                &&& HostState::same_props(*old(self), *final(self))
                &&& HostState::same_staging(*old(self), *final(self))
                &&& HostState::same_ident(*old(self), *final(self))
            },
    {
        match self.find_ctx(id) {
            Some(i) => {
                proof {
                    lemma_key_index_is(self.contexts@, ctx_key(), i as int);
                }
                let mut rec = self.contexts[i];
                if !rec.live {
                    return Err(Status::BadArgument);
                }
                rec.live = false;
                self.set_ctx(i, rec);
                Ok(())
            },
            None => Err(Status::BadArgument),
        }
    }

    /// Plugin-initiated signal that it is done with the current context
    /// and the host may proceed to tear it down.
    pub fn signal_done(&mut self) -> (r: Result<(), Status>)
        requires
            old(self).wf(),
        ensures
            final(self).wf(),
            r is Ok <==> old(self).cur_live(),
            r is Err ==> r == Result::<(), Status>::Err(Status::BadArgument) && *final(self)
                == *old(self),
            r is Ok ==> {
                &&& final(self).ctx(old(self).cur_id()) == (CtxRec {
                    done_requested: true,
                    ..old(self).ctx(old(self).cur_id())
                })
                &&& forall|id2: u32|
                    id2 != old(self).cur_id() ==> #[trigger] final(self).ctx_exists(id2) == old(self).ctx_exists(id2)
                &&& forall|id2: u32|
                    id2 != old(self).cur_id() && old(self).ctx_exists(id2) ==> #[trigger] final(self).ctx(id2) == old(self).ctx(id2)
                &&& final(self).current == old(self).current
                &&& HostState::same_shared(*old(self), *final(self))
                &&& HostState::same_queues(*old(self), *final(self))
                &&& HostState::same_calls(*old(self), *final(self))
                &&& HostState::same_props(*old(self), *final(self))
                &&& HostState::same_staging(*old(self), *final(self))
                &&& HostState::same_ident(*old(self), *final(self))
            },
    {
        if !self.current_live() {
            return Err(Status::BadArgument);
        }
        let id = match self.current {
            Some(id) => id,
            None => {
                return Err(Status::BadArgument);
            },
        };
        match self.find_ctx(id) {
            Some(i) => {
                proof {
                    lemma_key_index_is(self.contexts@, ctx_key(), i as int);
                }
                let mut rec = self.contexts[i];
                rec.done_requested = true;
                self.set_ctx(i, rec);
                Ok(())
            },
            None => Err(Status::BadArgument),
        }
    }

    /// (Re)arms the root context's periodic timer; zero disables it. A new
    /// period replaces the old one: there is at most one timer per root.
    pub fn set_tick_period(&mut self, period_ms: u64) -> (r: Result<(), Status>)
        requires
            old(self).wf(),
        ensures
            final(self).wf(),
            r is Ok <==> old(self).cur_live() && old(self).ctx(old(self).cur_id()).role
                == ContextRole::Root,
            r is Err ==> r == Result::<(), Status>::Err(Status::BadArgument) && *final(self)
                == *old(self),
            r is Ok ==> {
                &&& final(self).ctx(old(self).cur_id()) == (CtxRec {
                    tick_ms: period_ms,
                    ..old(self).ctx(old(self).cur_id())
                })
                &&& forall|id2: u32|
                    id2 != old(self).cur_id() ==> #[trigger] final(self).ctx_exists(id2) == old(self).ctx_exists(id2)
                &&& forall|id2: u32|
                    id2 != old(self).cur_id() && old(self).ctx_exists(id2) ==> #[trigger] final(self).ctx(id2) == old(self).ctx(id2)
                &&& final(self).current == old(self).current
                &&& HostState::same_shared(*old(self), *final(self))
                &&& HostState::same_queues(*old(self), *final(self))
                &&& HostState::same_calls(*old(self), *final(self))
                &&& HostState::same_props(*old(self), *final(self))
                &&& HostState::same_staging(*old(self), *final(self))
                &&& HostState::same_ident(*old(self), *final(self))
            },
    {
        if !self.current_live() {
            return Err(Status::BadArgument);
        }
        let id = match self.current {
            Some(id) => id,
            None => {
                return Err(Status::BadArgument);
            },
        };
        match self.find_ctx(id) {
            Some(i) => {
                proof {
                    lemma_key_index_is(self.contexts@, ctx_key(), i as int);
                }
                let mut rec = self.contexts[i];
                if !matches!(rec.role, ContextRole::Root) {
                    return Err(Status::BadArgument);
                }
                rec.tick_ms = period_ms;
                self.set_ctx(i, rec);
                Ok(())
            },
            None => Err(Status::BadArgument),
        }
    }

    /// Host-side: moves the host clock.
    pub fn set_time(&mut self, ms: u64)
        requires
            old(self).wf(),
        ensures
            final(self).wf(),
            *final(self) == (HostState { now_ms: ms, ..*old(self) }),
    {
        self.now_ms = ms;
    }

    /// The host clock, readable by whichever live context is executing.
    pub fn time(&self) -> (r: Result<u64, Status>)
        requires
            self.wf(),
        ensures
            r is Ok <==> self.cur_live(),
            match r {
                Ok(t) => t == self.now_ms,
                Err(e) => e == Status::BadArgument,
            },
    {
        if !self.current_live() {
            return Err(Status::BadArgument);
        }
        Ok(self.now_ms)
    }
}

} // verus!
