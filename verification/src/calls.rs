//! Asynchronous call dispatch and completion correlation.
//!
//! `dispatch_call` never blocks: it hands back an opaque token at once,
//! and the token is the only key that later matches the completion to the
//! call that produced it. Tokens are never reused: the allocator only
//! counts up, and a completed token is retired for good.

use vstd::prelude::*;

use crate::host::{token_key, HostState, PendingCall};
use crate::table::{has_key, key_index, lemma_key_index_is, lemma_push_keeps_others,
    lemma_remove_keeps_others};
use crate::types::Status;

verus! {

/// How a dispatch moves the state: a fresh token, owned by the dispatching
/// context, joins the outstanding set; every failure leaves the state
/// intact.
pub open spec fn dispatch_step(
    pre: HostState,
    post: HostState,
    upstream: Seq<char>,
    r: Result<u32, Status>,
) -> bool {
    &&& (!pre.cur_live() ==> r == Result::<u32, Status>::Err(Status::BadArgument) && post == pre)
    &&& (pre.cur_live() && upstream.len() == 0 ==> r == Result::<u32, Status>::Err(
        Status::BadArgument,
    ) && post == pre)
    &&& (pre.cur_live() && upstream.len() > 0 && pre.next_token == u32::MAX ==> r == Result::<
        u32,
        Status,
    >::Err(Status::InternalFailure) && post == pre)
    &&& (pre.cur_live() && upstream.len() > 0 && pre.next_token < u32::MAX ==> {
        &&& r == Result::<u32, Status>::Ok(pre.next_token)
        &&& !pre.token_outstanding(pre.next_token)
        &&& post.token_outstanding(pre.next_token)
        &&& post.token_owner(pre.next_token) == pre.cur_id()
        &&& forall|t2: u32|
            t2 != pre.next_token ==> #[trigger] post.token_outstanding(t2)
                == pre.token_outstanding(t2)
        &&& forall|t2: u32|
            t2 != pre.next_token && pre.token_outstanding(t2) ==> #[trigger] post.token_owner(t2)
                == pre.token_owner(t2)
        &&& post.next_token == pre.next_token + 1
        &&& HostState::same_contexts(pre, post)
        &&& HostState::same_shared(pre, post)
        &&& HostState::same_queues(pre, post)
        &&& HostState::same_props(pre, post)
        &&& HostState::same_staging(pre, post)
        &&& HostState::same_ident(pre, post)
    })
}

/// How a completion moves the state: the token is retired — a second
/// completion for it can only fail — and the owner that dispatched it is
/// answered. The staged response data is stated by the operation itself.
pub open spec fn complete_step(
    pre: HostState,
    post: HostState,
    token: u32,
    r: Result<u32, Status>,
) -> bool {
    &&& (!pre.token_outstanding(token) ==> r == Result::<u32, Status>::Err(Status::NotFound)
        && post == pre)
    &&& (pre.token_outstanding(token) ==> {
        &&& r == Result::<u32, Status>::Ok(pre.token_owner(token))
        &&& !post.token_outstanding(token)
        &&& forall|t2: u32|
            t2 != token ==> #[trigger] post.token_outstanding(t2) == pre.token_outstanding(t2)
        &&& forall|t2: u32|
            t2 != token && pre.token_outstanding(t2) ==> #[trigger] post.token_owner(t2)
                == pre.token_owner(t2)
        &&& post.next_token == pre.next_token
        &&& post.call_response_active
        &&& HostState::same_contexts(pre, post)
        &&& HostState::same_shared(pre, post)
        &&& HostState::same_queues(pre, post)
        &&& HostState::same_props(pre, post)
        &&& HostState::same_ident(pre, post)
        &&& post.request_body == pre.request_body
        &&& post.response_body == pre.response_body
        &&& post.downstream_data == pre.downstream_data
        &&& post.upstream_data == pre.upstream_data
        &&& post.vm_config == pre.vm_config
        &&& post.plugin_config == pre.plugin_config
        &&& post.call_data == pre.call_data
        &&& post.request_headers == pre.request_headers
        &&& post.request_trailers == pre.request_trailers
        &&& post.response_headers == pre.response_headers
        &&& post.response_trailers == pre.response_trailers
        &&& post.active_config == pre.active_config
        &&& post.staged_response == pre.staged_response
        &&& post.route_cache_cleared == pre.route_cache_cleared
    })
}

impl HostState {
    /// A call token has been issued and its completion has not fired yet.
    pub open spec fn token_outstanding(self, t: u32) -> bool {
        has_key(self.pending@, token_key(), t)
    }

    /// The context that dispatched an outstanding call (meaningful while
    /// the token is outstanding).
    pub open spec fn token_owner(self, t: u32) -> u32 {
        self.pending@[key_index(self.pending@, token_key(), t)].owner
    }

    /// Position of an outstanding token.
    fn find_pending(&self, token: u32) -> (r: Option<usize>)
        ensures
            match r {
                Some(i) => i < self.pending@.len() && self.pending@[i as int].token == token,
                None => !self.token_outstanding(token),
            },
    {
        let mut i: usize = 0;
        while i < self.pending.len()
            invariant
                i <= self.pending@.len(),
                forall|j: int| 0 <= j < i ==> (#[trigger] self.pending@[j].token) != token,
            decreases self.pending@.len() - i,
        {
            if self.pending[i].token == token {
                return Some(i);
            }
            i += 1;
        }
        proof {
            if self.token_outstanding(token) {
                let m = key_index(self.pending@, token_key(), token);
                assert(0 <= m < self.pending@.len() && token_key()(self.pending@[m]) == token);
                assert(false);
            }
        }
        None
    }


    /// The owner of an outstanding token, if the token is outstanding.
    pub fn call_owner(&self, token: u32) -> (r: Option<u32>)
        requires
            self.wf(),
        ensures
            match r {
                Some(o) => self.token_outstanding(token) && o == self.token_owner(token),
                None => !self.token_outstanding(token),
            },
    {
        match self.find_pending(token) {
            Some(i) => {
                proof {
                    lemma_key_index_is(self.pending@, token_key(), i as int);
                }
                Some(self.pending[i].owner)
            },
            None => None,
        }
    }

    /// Dispatches an outbound call on behalf of the executing context and
    /// returns its correlation token immediately; the result arrives later
    /// through the completion path under this token. The headers, body,
    /// trailers and timeout are forwarded to the transport, which is
    /// outside this model; the timeout is advisory.
    pub fn dispatch_call(&mut self, upstream: &str, _timeout_ms: u64) -> (r: Result<u32, Status>)
        requires
            old(self).wf(),
        ensures
            final(self).wf(),
            dispatch_step(*old(self), *final(self), upstream@, r),
    {
        if !self.current_live() {
            return Err(Status::BadArgument);
        }
        if upstream.is_empty() {
            return Err(Status::BadArgument);
        }
        if self.next_token == u32::MAX {
            return Err(Status::InternalFailure);
        }
        let owner = match self.current {
            Some(id) => id,
            None => {
                return Err(Status::BadArgument);
            },
        };
        let ghost pre = *self;
        let token = self.next_token;
        self.pending.push(PendingCall { token, owner });
        self.next_token = token + 1;
        proof {
            assert forall|m: int| 0 <= m < pre.pending@.len() implies (#[trigger] pre.pending@[
                m
            ].token) != token by {}
            assert(!pre.token_outstanding(token));
            assert(self.pending@ =~= pre.pending@.push(self.pending@.last()));
            lemma_push_keeps_others(pre.pending@, self.pending@, token_key());
            assert forall|t2: u32| t2 != token implies #[trigger] self.token_outstanding(t2)
                == pre.token_outstanding(t2) by {
                assert(has_key(self.pending@, token_key(), t2) == has_key(
                    pre.pending@,
                    token_key(),
                    t2,
                ));
            }
        }
        Ok(token)
    }

    /// Host-side completion of an outstanding call: retires the token,
    /// stages the response headers, body and trailers for the completion
    /// callback, and answers which context must receive that callback.
    pub fn complete_call(
        &mut self,
        token: u32,
        headers: Vec<(String, String)>,
        body: Vec<u8>,
        trailers: Vec<(String, String)>,
    ) -> (r: Result<u32, Status>)
        requires
            old(self).wf(),
        ensures
            final(self).wf(),
            complete_step(*old(self), *final(self), token, r),
            r is Ok ==> final(self).call_response_headers == headers && final(self).call_response_body == body && final(self).call_response_trailers == trailers,
    {
        match self.find_pending(token) {
            Some(i) => {
                proof {
                    lemma_key_index_is(self.pending@, token_key(), i as int);
                }
                let owner = self.pending[i].owner;
                let ghost pre = *self;
                self.pending.remove(i);
                self.call_response_headers = headers;
                self.call_response_body = body;
                self.call_response_trailers = trailers;
                self.call_response_active = true;
                proof {
                    lemma_remove_keeps_others(pre.pending@, self.pending@, token_key(), i as int);
                    assert forall|t2: u32| t2 != token implies #[trigger] self.token_outstanding(
                        t2,
                    ) == pre.token_outstanding(t2) by {
                        assert(has_key(self.pending@, token_key(), t2) == has_key(
                            pre.pending@,
                            token_key(),
                            t2,
                        ));
                    }
                }
                Ok(owner)
            },
            None => Err(Status::NotFound),
        }
    }
}

} // verus!
