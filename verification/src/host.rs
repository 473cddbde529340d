//! Verified model of the host facade.
//!
//! `HostState` carries everything the boundary operations observe: the
//! registry of live contexts with their per-direction pipeline states, the
//! process-wide shared key/value store with its version counters, the
//! shared FIFO queues, the outstanding call tokens, the property tree, and
//! the staging buffers and maps that hold the data of the callback
//! currently being delivered. Every operation states exactly how it moves
//! this state; the laws at the end of the file relate the operations to
//! each other.

use vstd::prelude::*;

use crate::table::{
    has_key, key_index, keys_unique, lemma_key_index_is, lemma_push_keeps_others,
    lemma_remove_keeps_others, lemma_update_keeps_others,
};
use crate::types::{ContextRole, FlowState, Status};

verus! {

/// One entry of the shared key/value store: a value and the version
/// counter that every successful write increments.
pub struct SharedEntry {
    pub key: String,
    pub value: Option<Vec<u8>>,
    pub version: u32,
}

/// One shared FIFO queue, registered under a (vm, name) pair and addressed
/// by a host-assigned id.
pub struct QueueRec {
    pub id: u32,
    pub vm: String,
    pub name: String,
    pub items: Vec<Vec<u8>>,
}

/// An outstanding asynchronous call: the token handed back at dispatch
/// time and the context that dispatched it.
#[derive(Copy, Clone)]
pub struct PendingCall {
    pub token: u32,
    pub owner: u32,
}

/// One attribute of the host-exposed property tree.
pub struct PropEntry {
    pub path: Vec<String>,
    pub value: Vec<u8>,
}

/// Registry record of one context: its identity, role, liveness and the
/// cooperative pipeline state each of its directions is in.
#[derive(Copy, Clone)]
pub struct CtxRec {
    pub id: u32,
    pub role: ContextRole,
    pub live: bool,
    pub done_requested: bool,
    pub down_flow: FlowState,
    pub up_flow: FlowState,
    pub req_flow: FlowState,
    pub resp_flow: FlowState,
    pub short_circuited: bool,
    pub tick_ms: u64,
}

/// The key function of each registry.
pub open spec fn shared_key() -> spec_fn(SharedEntry) -> Seq<char> {
    |e: SharedEntry| e.key@
}

/// Queue records keyed by host-assigned id.
pub open spec fn queue_key() -> spec_fn(QueueRec) -> u32 {
    |q: QueueRec| q.id
}

/// Queue records keyed by the (vm, name) pair they were registered under.
pub open spec fn queue_name_key() -> spec_fn(QueueRec) -> (Seq<char>, Seq<char>) {
    |q: QueueRec| (q.vm@, q.name@)
}

/// Outstanding calls keyed by token.
pub open spec fn token_key() -> spec_fn(PendingCall) -> u32 {
    |c: PendingCall| c.token
}

/// Context records keyed by context id.
pub open spec fn ctx_key() -> spec_fn(CtxRec) -> u32 {
    |c: CtxRec| c.id
}

/// Property entries keyed by path.
pub open spec fn prop_key() -> spec_fn(PropEntry) -> Seq<Seq<char>> {
    |p: PropEntry| p.path.deep_view()
}

/// The whole observable state of the host facade.
pub struct HostState {
    /// Identifier of this plugin instance, used to resolve shared queues.
    pub vm_id: String,
    /// The host clock, milliseconds since its epoch.
    pub now_ms: u64,
    /// Registry of every context created so far, the root one first.
    pub contexts: Vec<CtxRec>,
    pub next_context_id: u32,
    /// The context whose callback is currently executing, if any.
    pub current: Option<u32>,
    /// Process-wide shared key/value store.
    pub shared: Vec<SharedEntry>,
    /// Process-wide shared queues.
    pub queues: Vec<QueueRec>,
    pub next_queue_id: u32,
    /// Outstanding asynchronous calls awaiting their completion callback.
    pub pending: Vec<PendingCall>,
    pub next_token: u32,
    /// Host-exposed attribute tree.
    pub props: Vec<PropEntry>,
    /// Host-owned byte buffers, one per addressable buffer kind.
    pub request_body: Vec<u8>,
    pub response_body: Vec<u8>,
    pub downstream_data: Vec<u8>,
    pub upstream_data: Vec<u8>,
    pub call_response_body: Vec<u8>,
    pub vm_config: Vec<u8>,
    pub plugin_config: Vec<u8>,
    pub call_data: Vec<u8>,
    /// Host-owned (name, value) maps, one per addressable map kind.
    pub request_headers: Vec<(String, String)>,
    pub request_trailers: Vec<(String, String)>,
    pub response_headers: Vec<(String, String)>,
    pub response_trailers: Vec<(String, String)>,
    pub call_response_headers: Vec<(String, String)>,
    pub call_response_trailers: Vec<(String, String)>,
    /// Whether a call response is staged right now; its accessors are
    /// valid only during the completion callback.
    pub call_response_active: bool,
    /// Configuration payload readable during the startup callbacks.
    pub active_config: Option<Vec<u8>>,
    /// Synthetic response staged by `send_http_response`, if any.
    pub staged_response: Option<(u32, Vec<(String, String)>, Vec<u8>)>,
    /// Whether the routing decision has been invalidated.
    pub route_cache_cleared: bool,
}

impl HostState {
    /// Well-formedness: every registry is keyed uniquely, ids stay below
    /// their allocators, the root context is the first record, and the
    /// current callback points at a registered context.
    pub open spec fn wf(self) -> bool {
        &&& keys_unique(self.shared@, shared_key())
        &&& keys_unique(self.queues@, queue_key())
        &&& keys_unique(self.queues@, queue_name_key())
        &&& forall|i: int|
            0 <= i < self.queues@.len() ==> (#[trigger] self.queues@[i].id) < self.next_queue_id
        &&& keys_unique(self.pending@, token_key())
        &&& forall|i: int|
            0 <= i < self.pending@.len() ==> (#[trigger] self.pending@[i].token) < self.next_token
        &&& keys_unique(self.contexts@, ctx_key())
        &&& forall|i: int|
            0 <= i < self.contexts@.len() ==> (#[trigger] self.contexts@[i].id)
                < self.next_context_id
        &&& forall|i: int|
            0 <= i < self.contexts@.len() ==> ((#[trigger] self.contexts@[i].role)
                == ContextRole::Root <==> i == 0)
        &&& keys_unique(self.props@, prop_key())
        &&& match self.current {
            Some(id) => has_key(self.contexts@, ctx_key(), id),
            None => true,
        }
    }

    // ----- context registry, by-key reading -----

    /// A context with this id has been created.
    pub open spec fn ctx_exists(self, id: u32) -> bool {
        has_key(self.contexts@, ctx_key(), id)
    }

    /// The registry record of a context (meaningful when it exists).
    pub open spec fn ctx(self, id: u32) -> CtxRec {
        self.contexts@[key_index(self.contexts@, ctx_key(), id)]
    }

    /// A context is live between its creation and its terminal event.
    pub open spec fn ctx_live(self, id: u32) -> bool {
        self.ctx_exists(id) && self.ctx(id).live
    }

    /// The context whose callback is executing is live: the condition for
    /// any capability operation to succeed.
    pub open spec fn cur_live(self) -> bool {
        match self.current {
            Some(id) => self.ctx_live(id),
            None => false,
        }
    }

    /// Identity of the currently executing context (meaningful when
    /// `cur_live`).
    pub open spec fn cur_id(self) -> u32 {
        self.current->0
    }

    // ----- shared data, by-key reading -----

    /// The key has been written at least once.
    pub open spec fn shared_exists(self, k: Seq<char>) -> bool {
        has_key(self.shared@, shared_key(), k)
    }

    /// Stored value of a key (meaningful when it exists).
    pub open spec fn shared_value(self, k: Seq<char>) -> Option<Seq<u8>> {
        self.shared@[key_index(self.shared@, shared_key(), k)].value.deep_view()
    }

    /// Version counter of a key (meaningful when it exists).
    pub open spec fn shared_version(self, k: Seq<char>) -> u32 {
        self.shared@[key_index(self.shared@, shared_key(), k)].version
    }

    /// What a read of the key observes: value and version, or twice absent
    /// for a key never written.
    pub open spec fn shared_pair(self, k: Seq<char>) -> (Option<Seq<u8>>, Option<u32>) {
        if self.shared_exists(k) {
            (self.shared_value(k), Some(self.shared_version(k)))
        } else {
            (None, None)
        }
    }

    /// A compare-and-swap precondition holds: either unconditional, or the
    /// expected version equals the stored one.
    pub open spec fn cas_matches(self, k: Seq<char>, cas: Option<u32>) -> bool {
        match cas {
            Some(v) => self.shared_exists(k) && self.shared_version(k) == v,
            None => true,
        }
    }

    // ----- frame predicates -----

    /// Context registry and callback cursor unchanged.
    pub open spec fn same_contexts(pre: HostState, post: HostState) -> bool {
        &&& post.contexts == pre.contexts
        &&& post.next_context_id == pre.next_context_id
        &&& post.current == pre.current
    }

    /// Shared key/value store unchanged.
    pub open spec fn same_shared(pre: HostState, post: HostState) -> bool {
        post.shared == pre.shared
    }

    /// Shared queues unchanged.
    pub open spec fn same_queues(pre: HostState, post: HostState) -> bool {
        &&& post.queues == pre.queues
        &&& post.next_queue_id == pre.next_queue_id
    }

    /// Outstanding calls unchanged.
    pub open spec fn same_calls(pre: HostState, post: HostState) -> bool {
        &&& post.pending == pre.pending
        &&& post.next_token == pre.next_token
    }

    /// Property tree unchanged.
    pub open spec fn same_props(pre: HostState, post: HostState) -> bool {
        post.props == pre.props
    }

    /// Staging buffers and maps unchanged.
    pub open spec fn same_staging(pre: HostState, post: HostState) -> bool {
        &&& post.request_body == pre.request_body
        &&& post.response_body == pre.response_body
        &&& post.downstream_data == pre.downstream_data
        &&& post.upstream_data == pre.upstream_data
        &&& post.call_response_body == pre.call_response_body
        &&& post.vm_config == pre.vm_config
        &&& post.plugin_config == pre.plugin_config
        &&& post.call_data == pre.call_data
        &&& post.request_headers == pre.request_headers
        &&& post.request_trailers == pre.request_trailers
        &&& post.response_headers == pre.response_headers
        &&& post.response_trailers == pre.response_trailers
        &&& post.call_response_headers == pre.call_response_headers
        &&& post.call_response_trailers == pre.call_response_trailers
        &&& post.call_response_active == pre.call_response_active
        &&& post.active_config == pre.active_config
        &&& post.staged_response == pre.staged_response
        &&& post.route_cache_cleared == pre.route_cache_cleared
    }

    /// Instance identity and clock unchanged.
    pub open spec fn same_ident(pre: HostState, post: HostState) -> bool {
        &&& post.vm_id == pre.vm_id
        &&& post.now_ms == pre.now_ms
    }

    // ----- construction -----

    /// A fresh facade: no contexts, empty stores, nothing staged.
    pub fn new(vm_id: String) -> (r: HostState)
        ensures
            r.wf(),
            r.vm_id == vm_id,
            r.contexts@.len() == 0,
            r.current is None,
            r.shared@.len() == 0,
            r.queues@.len() == 0,
            r.pending@.len() == 0,
            r.props@.len() == 0,
            r.now_ms == 0,
            forall|k: Seq<char>| !(#[trigger] r.shared_exists(k)),
            forall|id: u32| !(#[trigger] r.ctx_exists(id)),
            !r.cur_live(),
    {
        let r = HostState {
            vm_id,
            now_ms: 0,
            contexts: Vec::new(),
            next_context_id: 1,
            current: None,
            shared: Vec::new(),
            queues: Vec::new(),
            next_queue_id: 1,
            pending: Vec::new(),
            next_token: 1,
            props: Vec::new(),
            request_body: Vec::new(),
            response_body: Vec::new(),
            downstream_data: Vec::new(),
            upstream_data: Vec::new(),
            call_response_body: Vec::new(),
            vm_config: Vec::new(),
            plugin_config: Vec::new(),
            call_data: Vec::new(),
            request_headers: Vec::new(),
            request_trailers: Vec::new(),
            response_headers: Vec::new(),
            response_trailers: Vec::new(),
            call_response_headers: Vec::new(),
            call_response_trailers: Vec::new(),
            call_response_active: false,
            active_config: None,
            staged_response: None,
            route_cache_cleared: false,
        };
        r
    }

    // ----- internal lookups -----

    /// Position of a shared-data key, scanning in order.
    pub(crate) fn find_shared(&self, key: &String) -> (r: Option<usize>)
        ensures
            match r {
                Some(i) => i < self.shared@.len() && self.shared@[i as int].key@ == key@,
                None => !self.shared_exists(key@),
            },
    {
        let mut i: usize = 0;
        while i < self.shared.len()
            invariant
                i <= self.shared@.len(),
                forall|j: int| 0 <= j < i ==> (#[trigger] self.shared@[j].key)@ != key@,
            decreases self.shared@.len() - i,
        {
            if self.shared[i].key.eq(key) {
                return Some(i);
            }
            i += 1;
        }
        proof {
            if self.shared_exists(key@) {
                let m = key_index(self.shared@, shared_key(), key@);
                assert(0 <= m < self.shared@.len() && shared_key()(self.shared@[m]) == key@);
                assert((self.shared@[m].key)@ == key@);
                assert(false);
            }
        }
        None
    }

    /// Position of a context id in the registry.
    pub(crate) fn find_ctx(&self, id: u32) -> (r: Option<usize>)
        ensures
            match r {
                Some(i) => i < self.contexts@.len() && self.contexts@[i as int].id == id,
                None => !self.ctx_exists(id),
            },
    {
        let mut i: usize = 0;
        while i < self.contexts.len()
            invariant
                i <= self.contexts@.len(),
                forall|j: int| 0 <= j < i ==> (#[trigger] self.contexts@[j].id) != id,
            decreases self.contexts@.len() - i,
        {
            if self.contexts[i].id == id {
                return Some(i);
            }
            i += 1;
        }
        proof {
            if self.ctx_exists(id) {
                let m = key_index(self.contexts@, ctx_key(), id);
                assert(0 <= m < self.contexts@.len() && ctx_key()(self.contexts@[m]) == id);
                assert(false);
            }
        }
        None
    }

    // ----- liveness queries -----

    /// Whether the given context is live.
    pub fn context_live(&self, id: u32) -> (r: bool)
        requires
            self.wf(),
        ensures
            r == self.ctx_live(id),
    {
        match self.find_ctx(id) {
            Some(i) => {
                proof {
                    lemma_key_index_is(self.contexts@, ctx_key(), i as int);
                }
                self.contexts[i].live
            },
            None => false,
        }
    }

    /// Whether a callback is executing for a live context right now.
    pub fn current_live(&self) -> (r: bool)
        requires
            self.wf(),
        ensures
            r == self.cur_live(),
    {
        match self.current {
            Some(id) => self.context_live(id),
            None => false,
        }
    }

    // ----- shared data with compare-and-swap -----

    /// Read of a shared key: its value and version, or twice absent for a
    /// key never written. Fails exactly when no live context is executing.
    pub fn get_shared_data(&self, key: &String) -> (r: Result<
        (Option<Vec<u8>>, Option<u32>),
        Status,
    >)
        requires
            self.wf(),
        ensures
            r is Ok <==> self.cur_live(),
            match r {
                Ok(p) => p.0.deep_view() == self.shared_pair(key@).0 && p.1 == self.shared_pair(
                    key@,
                ).1,
                Err(e) => e == Status::BadArgument,
            },
    {
        if !self.current_live() {
            return Err(Status::BadArgument);
        }
        match self.find_shared(key) {
            Some(i) => {
                proof {
                    lemma_key_index_is(self.shared@, shared_key(), i as int);
                }
                let v = clone_opt_bytes(&self.shared[i].value);
                Ok((v, Some(self.shared[i].version)))
            },
            None => Ok((None, None)),
        }
    }

    /// Write of a shared key, optionally conditioned on an expected
    /// version. Success stores the value and increments the version; a
    /// stale expectation is reported as `CasMismatch` and changes nothing.
    pub fn set_shared_data(&mut self, key: &String, value: Option<&[u8]>, cas: Option<u32>) -> (r:
        Result<(), Status>)
        requires
            old(self).wf(),
        ensures
            final(self).wf(),
            set_shared_step(*old(self), *final(self), key@, value.deep_view(), cas, r),
    {
        if !self.current_live() {
            return Err(Status::BadArgument);
        }
        let found = self.find_shared(key);
        match cas {
            Some(expected) => {
                match found {
                    Some(i) => {
                        proof {
                            lemma_key_index_is(self.shared@, shared_key(), i as int);
                        }
                        if self.shared[i].version != expected {
                            return Err(Status::CasMismatch);
                        }
                    },
                    None => {
                        return Err(Status::CasMismatch);
                    },
                }
            },
            None => {},
        }
        let stored: Option<Vec<u8>> = match value {
            Some(b) => Some(bytes_of_slice(b)),
            None => None,
        };
        match found {
            Some(i) => {
                proof {
                    lemma_key_index_is(self.shared@, shared_key(), i as int);
                }
                if self.shared[i].version == u32::MAX {
                    return Err(Status::InternalFailure);
                }
                let ghost pre = *self;
                let next_version = self.shared[i].version + 1;
                self.shared[i].value = stored;
                self.shared[i].version = next_version;
                proof {
                    assert(self.shared@ =~= pre.shared@.update(i as int, self.shared@[i as int]));
                    lemma_update_keeps_others(pre.shared@, self.shared@, shared_key(), i as int);
                    assert forall|k2: Seq<char>| k2 != key@ implies #[trigger] self.shared_pair(k2)
                        == pre.shared_pair(k2) by {
                        assert(has_key(self.shared@, shared_key(), k2) == has_key(
                            pre.shared@,
                            shared_key(),
                            k2,
                        ));
                    }
                }
                Ok(())
            },
            None => {
                let ghost pre = *self;
                self.shared.push(SharedEntry { key: key.clone(), value: stored, version: 1 });
                proof {
                    assert(self.shared@ =~= pre.shared@.push(self.shared@.last()));
                    assert(shared_key()(self.shared@.last()) == key@);
                    lemma_push_keeps_others(pre.shared@, self.shared@, shared_key());
                    assert forall|k2: Seq<char>| k2 != key@ implies #[trigger] self.shared_pair(k2)
                        == pre.shared_pair(k2) by {
                        assert(has_key(self.shared@, shared_key(), k2) == has_key(
                            pre.shared@,
                            shared_key(),
                            k2,
                        ));
                    }
                }
                Ok(())
            },
        }
    }
}

/// How a shared-data write moves the state: the exact outcome for every
/// combination of liveness, compare-and-swap expectation and stored
/// version.
pub open spec fn set_shared_step(
    pre: HostState,
    post: HostState,
    k: Seq<char>,
    v: Option<Seq<u8>>,
    cas: Option<u32>,
    r: Result<(), Status>,
) -> bool {
    &&& (!pre.cur_live() ==> r == Result::<(), Status>::Err(Status::BadArgument) && post == pre)
    &&& (pre.cur_live() && !pre.cas_matches(k, cas) ==> r == Result::<(), Status>::Err(
        Status::CasMismatch,
    ) && post == pre)
    &&& (pre.cur_live() && pre.cas_matches(k, cas) && pre.shared_exists(k) && pre.shared_version(k)
        == u32::MAX ==> r == Result::<(), Status>::Err(Status::InternalFailure) && post == pre)
    &&& (pre.cur_live() && pre.cas_matches(k, cas) && !(pre.shared_exists(k)
        && pre.shared_version(k) == u32::MAX) ==> {
        &&& r == Result::<(), Status>::Ok(())
        &&& post.shared_exists(k)
        &&& post.shared_value(k) == v
        &&& post.shared_version(k) == if pre.shared_exists(k) {
            pre.shared_version(k) + 1
        } else {
            1
        }
        &&& forall|k2: Seq<char>| k2 != k ==> #[trigger] post.shared_pair(k2) == pre.shared_pair(k2)
        &&& HostState::same_contexts(pre, post)
        &&& HostState::same_queues(pre, post)
        &&& HostState::same_calls(pre, post)
        &&& HostState::same_props(pre, post)
        &&& HostState::same_staging(pre, post)
        &&& HostState::same_ident(pre, post)
    })
}

/// Byte-for-byte copy of a slice.
pub fn bytes_of_slice(s: &[u8]) -> (r: Vec<u8>)
    ensures
        r@ == s@,
{
    let mut out: Vec<u8> = Vec::new();
    let mut i: usize = 0;
    while i < s.len()
        invariant
            i <= s@.len(),
            out@ == s@.take(i as int),
        decreases s@.len() - i,
    {
        out.push(s[i]);
        i += 1;
        proof {
            assert(s@.take(i as int) =~= s@.take(i - 1).push(s@[i - 1]));
        }
    }
    proof {
        assert(s@.take(s@.len() as int) =~= s@);
    }
    out
}

/// Byte-for-byte copy of a byte vector.
pub fn clone_bytes(v: &Vec<u8>) -> (r: Vec<u8>)
    ensures
        r@ == v@,
{
    bytes_of_slice(v.as_slice())
}

/// Copy of an optional byte vector, preserving presence.
pub fn clone_opt_bytes(v: &Option<Vec<u8>>) -> (r: Option<Vec<u8>>)
    ensures
        r.deep_view() == v.deep_view(),
{
    match v {
        Some(b) => Some(clone_bytes(b)),
        None => None,
    }
}

} // verus!
