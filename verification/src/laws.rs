//! Laws of the host facade, each proved from the step relations its
//! operations are specified by.

use vstd::prelude::*;

use crate::calls::{complete_step, dispatch_step};
use crate::host::{set_shared_step, token_key, HostState};
use crate::queues::{dequeue_step, enqueue_step};
use crate::types::Status;

verus! {

/// No capability operation succeeds without a live executing context:
/// before any callback, or once the terminal event has retired the
/// context, a shared-data write fails and changes nothing.
pub proof fn lemma_shared_write_gated(
    pre: HostState,
    post: HostState,
    k: Seq<char>,
    v: Option<Seq<u8>>,
    cas: Option<u32>,
    r: Result<(), Status>,
)
    requires
        set_shared_step(pre, post, k, v, cas, r),
        !pre.cur_live(),
    ensures
        r == Result::<(), Status>::Err(Status::BadArgument),
        post == pre,
{
}

/// As `lemma_shared_write_gated`, for an enqueue.
pub proof fn lemma_enqueue_gated(
    pre: HostState,
    post: HostState,
    id: u32,
    v: Seq<u8>,
    r: Result<(), Status>,
)
    requires
        enqueue_step(pre, post, id, v, r),
        !pre.cur_live(),
    ensures
        r == Result::<(), Status>::Err(Status::BadArgument),
        post == pre,
{
}

/// As `lemma_shared_write_gated`, for a dequeue.
pub proof fn lemma_dequeue_gated(
    pre: HostState,
    post: HostState,
    id: u32,
    r: Result<Option<Vec<u8>>, Status>,
)
    requires
        dequeue_step(pre, post, id, r),
        !pre.cur_live(),
    ensures
        r == Result::<Option<Vec<u8>>, Status>::Err(Status::BadArgument),
        post == pre,
{
}

/// As `lemma_shared_write_gated`, for a call dispatch.
pub proof fn lemma_dispatch_gated(
    pre: HostState,
    post: HostState,
    upstream: Seq<char>,
    r: Result<u32, Status>,
)
    requires
        dispatch_step(pre, post, upstream, r),
        !pre.cur_live(),
    ensures
        r == Result::<u32, Status>::Err(Status::BadArgument),
        post == pre,
{
}

/// The outstanding call tokens of a well-formed host are pairwise
/// distinct: N outstanding dispatches always hold N distinct tokens.
pub proof fn lemma_outstanding_tokens_distinct(s: HostState, i: int, j: int)
    requires
        s.wf(),
        0 <= i < j < s.pending@.len(),
    ensures
        s.pending@[i].token != s.pending@[j].token,
{
    assert(token_key()(s.pending@[i]) != token_key()(s.pending@[j]));
}

/// A successful dispatch issues a token that was not outstanding before,
/// is outstanding afterwards, and is owned by the dispatching context;
/// every token outstanding before stays outstanding with its owner.
pub proof fn lemma_dispatch_issues_fresh_token(
    pre: HostState,
    post: HostState,
    upstream: Seq<char>,
    t: u32,
    r: Result<u32, Status>,
)
    requires
        dispatch_step(pre, post, upstream, r),
        r == Result::<u32, Status>::Ok(t),
    ensures
        !pre.token_outstanding(t),
        post.token_outstanding(t),
        post.token_owner(t) == pre.cur_id(),
        forall|t2: u32|
            t2 != t && pre.token_outstanding(t2) ==> #[trigger] post.token_outstanding(t2)
                && post.token_owner(t2) == pre.token_owner(t2),
{
}

/// Two consecutive successful dispatches issue distinct tokens, and both
/// are outstanding afterwards.
pub proof fn lemma_two_dispatches_distinct(
    pre: HostState,
    mid: HostState,
    post: HostState,
    up1: Seq<char>,
    up2: Seq<char>,
    t1: u32,
    t2: u32,
    r1: Result<u32, Status>,
    r2: Result<u32, Status>,
)
    requires
        dispatch_step(pre, mid, up1, r1),
        r1 == Result::<u32, Status>::Ok(t1),
        dispatch_step(mid, post, up2, r2),
        r2 == Result::<u32, Status>::Ok(t2),
    ensures
        t1 != t2,
        post.token_outstanding(t1),
        post.token_outstanding(t2),
{
}

/// A completion fires exactly once: after a successful completion the
/// token is retired, and a second completion for the same token fails
/// and changes nothing.
pub proof fn lemma_completion_fires_once(
    pre: HostState,
    mid: HostState,
    post: HostState,
    token: u32,
    r1: Result<u32, Status>,
    r2: Result<u32, Status>,
)
    requires
        complete_step(pre, mid, token, r1),
        r1 is Ok,
        complete_step(mid, post, token, r2),
    ensures
        r2 == Result::<u32, Status>::Err(Status::NotFound),
        post == mid,
{
}

/// A completion matches exactly the dispatch that produced its token: it
/// answers the context that made that dispatch.
pub proof fn lemma_completion_answers_dispatcher(
    pre: HostState,
    mid: HostState,
    post: HostState,
    upstream: Seq<char>,
    t: u32,
    r1: Result<u32, Status>,
    r2: Result<u32, Status>,
)
    requires
        dispatch_step(pre, mid, upstream, r1),
        r1 == Result::<u32, Status>::Ok(t),
        complete_step(mid, post, t, r2),
    ensures
        r2 == Result::<u32, Status>::Ok(pre.cur_id()),
{
}

/// The compare-and-swap discipline: a write conditioned on the stored
/// version succeeds and moves the version up by one.
pub proof fn lemma_cas_success_increments(
    pre: HostState,
    post: HostState,
    k: Seq<char>,
    v2: Option<Seq<u8>>,
    expected: u32,
    r: Result<(), Status>,
)
    requires
        pre.cur_live(),
        pre.shared_exists(k),
        pre.shared_version(k) == expected,
        expected < u32::MAX,
        set_shared_step(pre, post, k, v2, Some(expected), r),
    ensures
        r == Result::<(), Status>::Ok(()),
        post.shared_exists(k),
        post.shared_value(k) == v2,
        post.shared_version(k) == expected + 1,
{
}

/// The compare-and-swap discipline under a race: after one writer wins,
/// a second write still conditioned on the old version fails with the
/// distinguished mismatch and leaves the winner's value and version.
pub proof fn lemma_stale_cas_rejected(
    pre: HostState,
    mid: HostState,
    post: HostState,
    k: Seq<char>,
    v2: Option<Seq<u8>>,
    v3: Option<Seq<u8>>,
    expected: u32,
    r1: Result<(), Status>,
    r2: Result<(), Status>,
)
    requires
        pre.cur_live(),
        pre.shared_exists(k),
        pre.shared_version(k) == expected,
        expected < u32::MAX,
        set_shared_step(pre, mid, k, v2, Some(expected), r1),
        set_shared_step(mid, post, k, v3, Some(expected), r2),
    ensures
        r1 == Result::<(), Status>::Ok(()),
        r2 == Result::<(), Status>::Err(Status::CasMismatch),
        post == mid,
        post.shared_value(k) == v2,
        post.shared_version(k) == expected + 1,
{
    assert(mid.cur_live());
    assert(mid.shared_version(k) == expected + 1);
    assert(!mid.cas_matches(k, Some(expected)));
}

/// Queue order is preserved: starting from an empty queue, enqueueing v1
/// then v2 and dequeueing twice yields v1 then v2 and leaves the queue
/// empty again.
pub proof fn lemma_queue_fifo(
    s0: HostState,
    s1: HostState,
    s2: HostState,
    s3: HostState,
    s4: HostState,
    id: u32,
    v1: Seq<u8>,
    v2: Seq<u8>,
    r1: Result<(), Status>,
    r2: Result<(), Status>,
    r3: Result<Option<Vec<u8>>, Status>,
    r4: Result<Option<Vec<u8>>, Status>,
)
    requires
        s0.cur_live(),
        s0.queue_exists(id),
        s0.queue_items(id).len() == 0,
        enqueue_step(s0, s1, id, v1, r1),
        enqueue_step(s1, s2, id, v2, r2),
        dequeue_step(s2, s3, id, r3),
        dequeue_step(s3, s4, id, r4),
    ensures
        r1 == Result::<(), Status>::Ok(()),
        r2 == Result::<(), Status>::Ok(()),
        (match r3 {
            Ok(v) => v is Some && v->0@ == v1,
            Err(_) => false,
        }),
        (match r4 {
            Ok(v) => v is Some && v->0@ == v2,
            Err(_) => false,
        }),
        s4.queue_items(id).len() == 0,
{
    assert(s1.cur_live());
    assert(s2.cur_live());
    assert(s3.cur_live());
    assert(s1.queue_items(id) == s0.queue_items(id).push(v1));
    assert(s2.queue_items(id) == s1.queue_items(id).push(v2));
    assert(s2.queue_items(id).len() == 2);
    assert(s2.queue_items(id)[0] == v1);
    assert(s3.queue_items(id) == s2.queue_items(id).drop_first());
    assert(s3.queue_items(id)[0] == v2);
    assert(s4.queue_items(id) == s3.queue_items(id).drop_first());
}

/// Dequeueing from an empty queue is a value-level "empty", never a
/// failure, and changes nothing.
pub proof fn lemma_dequeue_empty_is_not_failure(
    pre: HostState,
    post: HostState,
    id: u32,
    r: Result<Option<Vec<u8>>, Status>,
)
    requires
        pre.cur_live(),
        pre.queue_exists(id),
        pre.queue_items(id).len() == 0,
        dequeue_step(pre, post, id, r),
    ensures
        (match r {
            Ok(v) => v is None,
            Err(_) => false,
        }),
        post == pre,
{
}

} // verus!
