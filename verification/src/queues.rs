//! Shared FIFO queues of the host facade: registration under a
//! (vm, name) pair, resolution from other instances, and order-preserving
//! enqueue and dequeue. An unknown id is reported as a failure; an empty
//! queue is a value-level outcome, never an error.

use vstd::prelude::*;

use crate::host::{bytes_of_slice, queue_key, queue_name_key, HostState, QueueRec};
use crate::table::{has_key, key_index, lemma_key_index_is, lemma_push_keeps_others,
    lemma_update_keeps_others};
use crate::types::Status;

verus! {

/// The bytes actually stored for an enqueue payload: an absent payload
/// enqueues an empty entry.
pub open spec fn queue_item_of(v: Option<Seq<u8>>) -> Seq<u8> {
    match v {
        Some(b) => b,
        None => Seq::empty(),
    }
}

/// How an enqueue moves the state: appended at the tail of exactly the
/// addressed queue, or a distinguished failure leaving everything intact.
pub open spec fn enqueue_step(
    pre: HostState,
    post: HostState,
    id: u32,
    v: Seq<u8>,
    r: Result<(), Status>,
) -> bool {
    &&& (!pre.cur_live() ==> r == Result::<(), Status>::Err(Status::BadArgument) && post == pre)
    &&& (pre.cur_live() && !pre.queue_exists(id) ==> r == Result::<(), Status>::Err(
        Status::NotFound,
    ) && post == pre)
    &&& (pre.cur_live() && pre.queue_exists(id) ==> {
        &&& r == Result::<(), Status>::Ok(())
        &&& post.queue_exists(id)
        &&& post.queue_items(id) == pre.queue_items(id).push(v)
        &&& forall|id2: u32|
            id2 != id ==> #[trigger] post.queue_exists(id2) == pre.queue_exists(id2)
        &&& forall|id2: u32|
            id2 != id && pre.queue_exists(id2) ==> #[trigger] post.queue_items(id2)
                == pre.queue_items(id2)
        &&& post.next_queue_id == pre.next_queue_id
        &&& HostState::same_contexts(pre, post)
        &&& HostState::same_shared(pre, post)
        &&& HostState::same_calls(pre, post)
        &&& HostState::same_props(pre, post)
        &&& HostState::same_staging(pre, post)
        &&& HostState::same_ident(pre, post)
    })
}

/// How a dequeue moves the state: the head of exactly the addressed queue
/// leaves it, an empty queue answers with an absent value, and an unknown
/// id is the only failure.
pub open spec fn dequeue_step(
    pre: HostState,
    post: HostState,
    id: u32,
    r: Result<Option<Vec<u8>>, Status>,
) -> bool {
    &&& (!pre.cur_live() ==> r == Result::<Option<Vec<u8>>, Status>::Err(Status::BadArgument)
        && post == pre)
    &&& (pre.cur_live() && !pre.queue_exists(id) ==> r == Result::<Option<Vec<u8>>, Status>::Err(
        Status::NotFound,
    ) && post == pre)
    &&& (pre.cur_live() && pre.queue_exists(id) && pre.queue_items(id).len() == 0 ==> (match r {
        Ok(v) => v is None,
        Err(_) => false,
    }) && post == pre)
    &&& (pre.cur_live() && pre.queue_exists(id) && pre.queue_items(id).len() > 0 ==> {
        &&& (match r {
            Ok(v) => match v {
                Some(b) => b@ == pre.queue_items(id)[0],
                None => false,
            },
            Err(_) => false,
        })
        &&& post.queue_exists(id)
        &&& post.queue_items(id) == pre.queue_items(id).drop_first()
        &&& forall|id2: u32|
            id2 != id ==> #[trigger] post.queue_exists(id2) == pre.queue_exists(id2)
        &&& forall|id2: u32|
            id2 != id && pre.queue_exists(id2) ==> #[trigger] post.queue_items(id2)
                == pre.queue_items(id2)
        &&& post.next_queue_id == pre.next_queue_id
        &&& HostState::same_contexts(pre, post)
        &&& HostState::same_shared(pre, post)
        &&& HostState::same_calls(pre, post)
        &&& HostState::same_props(pre, post)
        &&& HostState::same_staging(pre, post)
        &&& HostState::same_ident(pre, post)
    })
}

impl HostState {
    /// A queue with this host-assigned id exists.
    pub open spec fn queue_exists(self, id: u32) -> bool {
        has_key(self.queues@, queue_key(), id)
    }

    /// The entries of a queue, oldest first (meaningful when it exists).
    pub open spec fn queue_items(self, id: u32) -> Seq<Seq<u8>> {
        self.queues@[key_index(self.queues@, queue_key(), id)].items.deep_view()
    }

    /// A queue is registered under this (vm, name) pair.
    pub open spec fn queue_registered(self, vm: Seq<char>, name: Seq<char>) -> bool {
        has_key(self.queues@, queue_name_key(), (vm, name))
    }

    /// The id a (vm, name) pair resolves to (meaningful when registered).
    pub open spec fn queue_id_for(self, vm: Seq<char>, name: Seq<char>) -> u32 {
        self.queues@[key_index(self.queues@, queue_name_key(), (vm, name))].id
    }

    /// Position of a queue id.
    fn find_queue_id(&self, id: u32) -> (r: Option<usize>)
        ensures
            match r {
                Some(i) => i < self.queues@.len() && self.queues@[i as int].id == id,
                None => !self.queue_exists(id),
            },
    {
        let mut i: usize = 0;
        while i < self.queues.len()
            invariant
                i <= self.queues@.len(),
                forall|j: int| 0 <= j < i ==> (#[trigger] self.queues@[j].id) != id,
            decreases self.queues@.len() - i,
        {
            if self.queues[i].id == id {
                return Some(i);
            }
            i += 1;
        }
        proof {
            if self.queue_exists(id) {
                let m = key_index(self.queues@, queue_key(), id);
                assert(0 <= m < self.queues@.len() && queue_key()(self.queues@[m]) == id);
                assert(false);
            }
        }
        None
    }

    /// Position of a (vm, name) registration pair.
    fn find_queue_pair(&self, vm: &String, name: &String) -> (r: Option<usize>)
        ensures
            match r {
                Some(i) => i < self.queues@.len() && self.queues@[i as int].vm@ == vm@
                    && self.queues@[i as int].name@ == name@,
                None => !self.queue_registered(vm@, name@),
            },
    {
        let mut i: usize = 0;
        while i < self.queues.len()
            invariant
                i <= self.queues@.len(),
                forall|j: int|
                    0 <= j < i ==> !((#[trigger] self.queues@[j].vm)@ == vm@ && self.queues@[
                        j
                    ].name@ == name@),
            decreases self.queues@.len() - i,
        {
            if self.queues[i].vm.eq(vm) && self.queues[i].name.eq(name) {
                return Some(i);
            }
            i += 1;
        }
        proof {
            if self.queue_registered(vm@, name@) {
                let m = key_index(self.queues@, queue_name_key(), (vm@, name@));
                assert(0 <= m < self.queues@.len() && queue_name_key()(self.queues@[m]) == (
                    vm@,
                    name@,
                ));
                assert((self.queues@[m].vm)@ == vm@ && self.queues@[m].name@ == name@);
                assert(false);
            }
        }
        None
    }

    /// Registers a shared queue under this instance's identifier. A name
    /// already registered re-binds to the existing queue; otherwise a
    /// fresh, empty queue is created under a fresh id.
    pub fn register_shared_queue(&mut self, name: &String) -> (r: Result<u32, Status>)
        requires
            old(self).wf(),
        ensures
            final(self).wf(),
            !old(self).cur_live() ==> r == Result::<u32, Status>::Err(Status::BadArgument)
                && *final(self) == *old(self),
            old(self).cur_live() && old(self).queue_registered(old(self).vm_id@, name@) ==> r
                == Result::<u32, Status>::Ok(old(self).queue_id_for(old(self).vm_id@, name@))
                && *final(self) == *old(self),
            old(self).cur_live() && !old(self).queue_registered(old(self).vm_id@, name@) && old(
                self,
            ).next_queue_id == u32::MAX ==> r == Result::<u32, Status>::Err(
                Status::InternalFailure,
            ) && *final(self) == *old(self),
            old(self).cur_live() && !old(self).queue_registered(old(self).vm_id@, name@) && old(
                self,
            ).next_queue_id < u32::MAX ==> {
                &&& r == Result::<u32, Status>::Ok(old(self).next_queue_id)
                &&& !old(self).queue_exists(old(self).next_queue_id)
                &&& final(self).queue_registered(old(self).vm_id@, name@)
                &&& final(self).queue_id_for(old(self).vm_id@, name@) == old(self).next_queue_id
                &&& final(self).queue_exists(old(self).next_queue_id)
                &&& final(self).queue_items(old(self).next_queue_id) == Seq::<Seq<u8>>::empty()
                &&& forall|id2: u32|
                    id2 != old(self).next_queue_id ==> #[trigger] final(self).queue_exists(id2)
                        == old(self).queue_exists(id2)
                &&& forall|id2: u32|
                    id2 != old(self).next_queue_id && old(self).queue_exists(id2)
                        ==> #[trigger] final(self).queue_items(id2) == old(self).queue_items(id2)
                &&& final(self).next_queue_id == old(self).next_queue_id + 1
                &&& HostState::same_contexts(*old(self), *final(self))
                &&& HostState::same_shared(*old(self), *final(self))
                &&& HostState::same_calls(*old(self), *final(self))
                &&& HostState::same_props(*old(self), *final(self))
                &&& HostState::same_staging(*old(self), *final(self))
                &&& HostState::same_ident(*old(self), *final(self))
            },
    {
        if !self.current_live() {
            return Err(Status::BadArgument);
        }
        let vm = self.vm_id.clone();
        match self.find_queue_pair(&vm, name) {
            Some(i) => {
                proof {
                    lemma_key_index_is(self.queues@, queue_name_key(), i as int);
                }
                Ok(self.queues[i].id)
            },
            None => {
                if self.next_queue_id == u32::MAX {
                    return Err(Status::InternalFailure);
                }
                let ghost pre = *self;
                let id = self.next_queue_id;
                self.queues.push(
                    QueueRec { id, vm, name: name.clone(), items: Vec::new() },
                );
                self.next_queue_id = id + 1;
                proof {
                    assert forall|m: int| 0 <= m < pre.queues@.len() implies (
                    #[trigger] pre.queues@[m].id) != id by {}
                    assert(!pre.queue_exists(id));
                    assert(self.queues@ =~= pre.queues@.push(self.queues@.last()));
                    lemma_push_keeps_others(pre.queues@, self.queues@, queue_key());
                    lemma_push_keeps_others(pre.queues@, self.queues@, queue_name_key());
                    assert(self.queue_items(id) =~= Seq::<Seq<u8>>::empty());
                    assert forall|id2: u32| id2 != id implies #[trigger] self.queue_exists(id2)
                        == pre.queue_exists(id2) by {
                        assert(has_key(self.queues@, queue_key(), id2) == has_key(
                            pre.queues@,
                            queue_key(),
                            id2,
                        ));
                    }
                }
                Ok(id)
            },
        }
    }

    /// Resolves a queue registered by any instance from its (vm, name)
    /// pair; an unknown pair is a value-level absence, not a failure.
    pub fn resolve_shared_queue(&self, vm: &String, name: &String) -> (r: Result<
        Option<u32>,
        Status,
    >)
        requires
            self.wf(),
        ensures
            r is Ok <==> self.cur_live(),
            match r {
                Ok(v) => match v {
                    Some(id) => self.queue_registered(vm@, name@) && id == self.queue_id_for(
                        vm@,
                        name@,
                    ),
                    None => !self.queue_registered(vm@, name@),
                },
                Err(e) => e == Status::BadArgument,
            },
    {
        if !self.current_live() {
            return Err(Status::BadArgument);
        }
        match self.find_queue_pair(vm, name) {
            Some(i) => {
                proof {
                    lemma_key_index_is(self.queues@, queue_name_key(), i as int);
                }
                Ok(Some(self.queues[i].id))
            },
            None => Ok(None),
        }
    }

    /// Appends an entry at the tail of a queue.
    pub fn enqueue_shared_queue(&mut self, queue_id: u32, value: Option<&[u8]>) -> (r: Result<
        (),
        Status,
    >)
        requires
            old(self).wf(),
        ensures
            final(self).wf(),
            enqueue_step(
                *old(self),
                *final(self),
                queue_id,
                queue_item_of(value.deep_view()),
                r,
            ),
    {
        if !self.current_live() {
            return Err(Status::BadArgument);
        }
        match self.find_queue_id(queue_id) {
            Some(i) => {
                proof {
                    lemma_key_index_is(self.queues@, queue_key(), i as int);
                }
                let item: Vec<u8> = match value {
                    Some(b) => bytes_of_slice(b),
                    None => Vec::new(),
                };
                let ghost pre = *self;
                let ghost itemv = item@;
                proof {
                    assert(itemv =~= queue_item_of(value.deep_view()));
                }
                self.queues[i].items.push(item);
                proof {
                    assert(self.queues@ =~= pre.queues@.update(i as int, self.queues@[i as int]));
                    lemma_update_keeps_others(pre.queues@, self.queues@, queue_key(), i as int);
                    lemma_update_keeps_others(
                        pre.queues@,
                        self.queues@,
                        queue_name_key(),
                        i as int,
                    );
                    assert(self.queue_items(queue_id) =~~= pre.queue_items(queue_id).push(itemv));
                    assert forall|id2: u32| id2 != queue_id implies #[trigger] self.queue_exists(
                        id2,
                    ) == pre.queue_exists(id2) by {
                        assert(has_key(self.queues@, queue_key(), id2) == has_key(
                            pre.queues@,
                            queue_key(),
                            id2,
                        ));
                    }
                }
                Ok(())
            },
            None => Err(Status::NotFound),
        }
    }

    /// Takes the oldest entry of a queue; an empty queue answers with an
    /// absent value, distinct from the unknown-id failure.
    pub fn dequeue_shared_queue(&mut self, queue_id: u32) -> (r: Result<Option<Vec<u8>>, Status>)
        requires
            old(self).wf(),
        ensures
            final(self).wf(),
            dequeue_step(*old(self), *final(self), queue_id, r),
    {
        if !self.current_live() {
            return Err(Status::BadArgument);
        }
        match self.find_queue_id(queue_id) {
            Some(i) => {
                proof {
                    lemma_key_index_is(self.queues@, queue_key(), i as int);
                }
                if self.queues[i].items.len() == 0 {
                    return Ok(None);
                }
                let ghost pre = *self;
                let item = self.queues[i].items.remove(0);
                proof {
                    assert(self.queues@ =~= pre.queues@.update(i as int, self.queues@[i as int]));
                    lemma_update_keeps_others(pre.queues@, self.queues@, queue_key(), i as int);
                    lemma_update_keeps_others(
                        pre.queues@,
                        self.queues@,
                        queue_name_key(),
                        i as int,
                    );
                    assert(item@ =~= pre.queue_items(queue_id)[0]);
                    assert(self.queue_items(queue_id) =~~= pre.queue_items(
                        queue_id,
                    ).drop_first());
                    assert forall|id2: u32| id2 != queue_id implies #[trigger] self.queue_exists(
                        id2,
                    ) == pre.queue_exists(id2) by {
                        assert(has_key(self.queues@, queue_key(), id2) == has_key(
                            pre.queues@,
                            queue_key(),
                            id2,
                        ));
                    }
                }
                Ok(Some(item))
            },
            None => Err(Status::NotFound),
        }
    }
}

} // verus!
