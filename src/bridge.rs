//! The syscall bridge: correlation ids and the table of parked waiters.
use serde_json::Value;
use std::collections::HashMap;
use vstd::prelude::*;

verus! {

broadcast use vstd::std_specs::hash::group_hash_axioms;

/// The `syscall` event sent to the shell when guest code calls out.
pub struct SyscallEvent {
    pub id: u64,
    pub pid: u32,
    pub call: String,
    pub args: Vec<Value>,
}

/// Allocates correlation ids and keeps one waiter per outstanding id.
///
/// `W` is whatever wakes the parked guest thread (a one-shot sender).
pub struct SyscallBridge<W> {
    next_id: u64,
    pending: HashMap<u64, W>,
}

/// `post` is `pre` after a call was opened under `id` with waiter `w`.
pub open spec fn opened<W>(pre: SyscallBridge<W>, post: SyscallBridge<W>, id: u64, w: W) -> bool {
    &&& id == pre.next_id()
    &&& !pre.pending().contains_key(id)
    &&& post.next_id() == pre.next_id() + 1
    &&& post.pending() == pre.pending().insert(id, w)
}

/// `post` is `pre` after the response for `id` was taken, handing out `r`.
pub open spec fn responded<W>(
    pre: SyscallBridge<W>,
    post: SyscallBridge<W>,
    id: u64,
    r: Option<W>,
) -> bool {
    &&& post.next_id() == pre.next_id()
    &&& post.pending() == pre.pending().remove(id)
    &&& r == (if pre.pending().contains_key(id) {
        Some(pre.pending()[id])
    } else {
        None
    })
}

/// Correlation ids are unique and strictly increasing: of two calls opened one
/// after the other, with any operations of the bridge in between (none of
/// which lowers the next id), the later one has the larger id, and neither id
/// was waiting when it was handed out.
pub proof fn lemma_ids_strictly_increase<W>(
    a0: SyscallBridge<W>,
    a1: SyscallBridge<W>,
    b0: SyscallBridge<W>,
    b1: SyscallBridge<W>,
    id1: u64,
    id2: u64,
    w1: W,
    w2: W,
)
    requires
        opened(a0, a1, id1, w1),
        a1.next_id() <= b0.next_id(),
        opened(b0, b1, id2, w2),
    ensures
        id1 < id2,
        !a0.pending().contains_key(id1),
        !b0.pending().contains_key(id2),
{
}

/// A response reaches at most one waiter: once the response for `id` has
/// been taken, a second one for the same id hands out nothing and leaves the
/// table as it was.
pub proof fn lemma_response_taken_once<W>(
    b0: SyscallBridge<W>,
    b1: SyscallBridge<W>,
    b2: SyscallBridge<W>,
    id: u64,
    r1: Option<W>,
    r2: Option<W>,
)
    requires
        responded(b0, b1, id, r1),
        responded(b1, b2, id, r2),
    ensures
        r2 is None,
        b2.pending() == b1.pending(),
        b2.next_id() == b1.next_id(),
{
    assert(b1.pending().remove(id) =~= b1.pending());
}

impl<W> SyscallBridge<W> {
    /// The id that the next call will receive.
    pub closed spec fn next_id(&self) -> u64 {
        self.next_id
    }

    /// The waiters, by correlation id.
    pub closed spec fn pending(&self) -> Map<u64, W> {
        self.pending@
    }

    /// Ids start at one, and every waiting id was handed out already.
    pub closed spec fn wf(&self) -> bool {
        &&& self.next_id >= 1
        &&& forall|id: u64| #[trigger] self.pending@.contains_key(id) ==> id < self.next_id
    }

    /// An empty bridge whose first id is one.
    pub fn new() -> (r: Self)
        ensures
            r.wf(),
            r.next_id() == 1,
            r.pending() == Map::<u64, W>::empty(),
    {
        SyscallBridge { next_id: 1, pending: HashMap::new() }
    }

    /// Whether another id can still be handed out.
    pub fn can_open(&self) -> (r: bool)
        ensures
            r == (self.next_id() < u64::MAX),
    {
        self.next_id < u64::MAX
    }

    /// Opens a call from process `pid`: allocates the next id, parks `waiter`
    /// under it, and returns the event to emit.
    pub fn open_call(&mut self, pid: u32, call: String, args: Vec<Value>, waiter: W) -> (ev:
        SyscallEvent)
        requires
            old(self).wf(),
            old(self).next_id() < u64::MAX,
        ensures
            final(self).wf(),
            opened(*old(self), *final(self), ev.id, waiter),
            ev.pid == pid,
            ev.call == call,
            ev.args == args,
    {
        let id = self.next_id;
        self.next_id = id + 1;
        self.pending.insert(id, waiter);
        SyscallEvent { id, pid, call, args }
    }

    /// Takes the waiter of `id` out of the table. `None` when there is none:
    /// a duplicate or late response, which is then ignored.
    pub fn respond(&mut self, id: u64) -> (r: Option<W>)
        requires
            old(self).wf(),
        ensures
            final(self).wf(),
            responded(*old(self), *final(self), id, r),
    {
        self.pending.remove(&id)
    }
}

} // verus!
