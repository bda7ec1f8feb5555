//! The virtual network fabric: NIC ids bound to MAC addresses, one frame
//! queue per MAC, unicast and broadcast routing.
use crate::error::HostError;
use crate::json::str_field;
use crate::table::StrTable;
use serde_json::Value;
use vstd::prelude::*;

verus! {

/// A link-layer frame: an opaque JSON value, routed by its `dst` field.
pub struct Frame {
    dst: String,
    value: Value,
}

impl Frame {
    /// The destination MAC the frame names; empty when it names none.
    pub closed spec fn dest(&self) -> Seq<char> {
        self.dst@
    }

    /// The JSON value carried.
    pub closed spec fn payload(&self) -> Value {
        self.value
    }

    /// The frame for `value`, addressed to the string under its `dst` key,
    /// or to the empty MAC when there is no such string.
    pub fn from_value(value: Value) -> (f: Frame)
        ensures
            f.payload() == value,
            f.dest() == (match crate::json::json_str_at(value, "dst"@) {
                Some(d) => d,
                None => Seq::<char>::empty(),
            }),
    {
        proof {
            reveal_strlit("dst");
        }
        let dst = match str_field(&value, "dst") {
            Some(d) => d,
            None => String::new(),
        };
        Frame { dst, value }
    }

    /// The destination MAC.
    pub fn dst(&self) -> (r: &String)
        ensures
            r@ == self.dest(),
    {
        &self.dst
    }

    /// The JSON value carried.
    pub fn value(&self) -> (r: &Value)
        ensures
            *r == self.payload(),
    {
        &self.value
    }

    /// Gives the JSON value back.
    pub fn into_value(self) -> (r: Value)
        ensures
            r == self.payload(),
    {
        self.value
    }

    /// A copy of the frame, for a second receiver.
    pub fn duplicate(&self) -> (r: Frame)
        ensures
            r == *self,
    {
        Frame { dst: self.dst.clone(), value: self.value.clone() }
    }
}

/// The NIC registry: which MAC each NIC id is bound to.
pub struct NicTable {
    macs: StrTable<String>,
}

impl NicTable {
    pub closed spec fn wf(&self) -> bool {
        self.macs.wf()
    }

    /// NIC id to MAC.
    pub closed spec fn macs(&self) -> Map<Seq<char>, Seq<char>> {
        self.macs.map()
    }

    /// No NIC is bound.
    pub fn new() -> (r: Self)
        ensures
            r.wf(),
            r.macs() == Map::<Seq<char>, Seq<char>>::empty(),
    {
        NicTable { macs: StrTable::new() }
    }

    /// Binds `id` to `mac`, replacing an earlier binding of `id`.
    pub fn bind(&mut self, id: String, mac: String)
        requires
            old(self).wf(),
        ensures
            final(self).wf(),
            final(self).macs() == old(self).macs().insert(id@, mac@),
    {
        self.macs.upsert(id, mac);
    }

    /// The MAC bound to `id`, if any.
    pub fn mac_of(&self, id: &String) -> (r: Option<String>)
        requires
            self.wf(),
        ensures
            match r {
                Some(m) => self.macs().contains_key(id@) && m@ == self.macs()[id@],
                None => !self.macs().contains_key(id@),
            },
    {
        match self.macs.get(id) {
            Some(m) => Some(m.clone()),
            None => None,
        }
    }

    /// The MAC of a sending NIC; `UnknownNic` when `id` is not bound.
    pub fn sender_mac(&self, id: &String) -> (r: Result<String, HostError>)
        requires
            self.wf(),
        ensures
            match r {
                Ok(m) => self.macs().contains_key(id@) && m@ == self.macs()[id@],
                Err(e) => !self.macs().contains_key(id@) && e == HostError::UnknownNic,
            },
    {
        match self.mac_of(id) {
            Some(m) => Ok(m),
            None => Err(HostError::UnknownNic),
        }
    }
}

/// The queues after `f` was sent from the NIC whose MAC is `src`: appended to
/// the queue of its destination when there is one, and otherwise to every
/// queue but the sender's.
pub open spec fn routed(q: Map<Seq<char>, Seq<Frame>>, src: Seq<char>, f: Frame) -> Map<
    Seq<char>,
    Seq<Frame>,
> {
    if q.contains_key(f.dest()) {
        q.insert(f.dest(), q[f.dest()].push(f))
    } else {
        Map::new(
            |m: Seq<char>| q.contains_key(m),
            |m: Seq<char>|
                if m == src {
                    q[m]
                } else {
                    q[m].push(f)
                },
        )
    }
}

/// Broadcast excludes the sender: a frame whose destination has no queue is
/// appended to every queue but the sender's, the sender's queue is left as it
/// was, and no queue is added or removed.
pub proof fn lemma_broadcast_excludes_sender(q: Map<Seq<char>, Seq<Frame>>, src: Seq<char>, f: Frame)
    requires
        !q.contains_key(f.dest()),
    ensures
        routed(q, src, f).dom() == q.dom(),
        q.contains_key(src) ==> routed(q, src, f)[src] == q[src],
        forall|m: Seq<char>|
            q.contains_key(m) && m != src ==> #[trigger] routed(q, src, f)[m] == q[m].push(f),
{
    assert(routed(q, src, f).dom() =~= q.dom());
}

/// Whether a frame `f` sent from MAC `src` lands in the queue at `m`, given
/// the MACs that have queues in `q`.
pub open spec fn reaches(q: Map<Seq<char>, Seq<Frame>>, m: Seq<char>, src: Seq<char>, f: Frame) -> bool {
    if q.contains_key(f.dest()) {
        f.dest() == m
    } else {
        m != src
    }
}

/// The queues after each of `sends` (sender MAC, frame) was routed in turn.
pub open spec fn route_all(q: Map<Seq<char>, Seq<Frame>>, sends: Seq<(Seq<char>, Frame)>) -> Map<
    Seq<char>,
    Seq<Frame>,
>
    decreases sends.len(),
{
    if sends.len() == 0 {
        q
    } else {
        routed(route_all(q, sends.drop_last()), sends.last().0, sends.last().1)
    }
}

/// The frames among `sends` that land at `m`, in the order they were sent.
pub open spec fn arrivals(
    q: Map<Seq<char>, Seq<Frame>>,
    m: Seq<char>,
    sends: Seq<(Seq<char>, Frame)>,
) -> Seq<Frame>
    decreases sends.len(),
{
    if sends.len() == 0 {
        Seq::empty()
    } else {
        let earlier = arrivals(q, m, sends.drop_last());
        if reaches(q, m, sends.last().0, sends.last().1) {
            earlier.push(sends.last().1)
        } else {
            earlier
        }
    }
}

/// Queues are FIFO per MAC: after any sequence of sends, unicast or
/// broadcast, the queue at `m` holds what it held before followed by the
/// frames that reached it in the order they were sent; receiving there hands
/// out exactly those and leaves the queue empty. Routing never adds a queue.
pub proof fn lemma_queue_fifo(
    q: Map<Seq<char>, Seq<Frame>>,
    m: Seq<char>,
    sends: Seq<(Seq<char>, Frame)>,
)
    requires
        q.contains_key(m),
    ensures
        route_all(q, sends).dom() == q.dom(),
        route_all(q, sends)[m] == q[m] + arrivals(q, m, sends),
        taken(route_all(q, sends), m) == q[m] + arrivals(q, m, sends),
        after_take(route_all(q, sends), m)[m] == Seq::<Frame>::empty(),
    decreases sends.len(),
{
    if sends.len() == 0 {
        assert(q[m] + Seq::<Frame>::empty() =~= q[m]);
    } else {
        let rest = sends.drop_last();
        let (src, f) = sends.last();
        lemma_queue_fifo(q, m, rest);
        let p = route_all(q, rest);
        assert(routed(p, src, f).dom() =~= p.dom());
        let before = q[m] + arrivals(q, m, rest);
        assert(before.push(f) =~= q[m] + arrivals(q, m, rest).push(f));
    }
}

/// The (sender MAC, frame) pairs of successive sends from NICs `ids` of
/// `frames`, with the MACs that `nics` binds.
pub open spec fn sends_of(nics: NicTable, ids: Seq<Seq<char>>, frames: Seq<Frame>) -> Seq<
    (Seq<char>, Frame),
> {
    Seq::new(frames.len(), |k: int| (nics.macs()[ids[k]], frames[k]))
}

/// States linked step by step by routing are the routing of the whole
/// sequence.
proof fn lemma_steps_route_all(
    qs: Seq<Map<Seq<char>, Seq<Frame>>>,
    sends: Seq<(Seq<char>, Frame)>,
    n: int,
)
    requires
        qs.len() == sends.len() + 1,
        forall|k: int|
            0 <= k < sends.len() ==> #[trigger] qs[k + 1] == routed(qs[k], sends[k].0, sends[k].1),
        0 <= n <= sends.len(),
    ensures
        qs[n] == route_all(qs[0], sends.take(n)),
    decreases n,
{
    if n > 0 {
        lemma_steps_route_all(qs, sends, n - 1);
        assert(sends.take(n).drop_last() =~= sends.take(n - 1));
        assert(sends.take(n).last() == sends[n - 1]);
        assert(qs[(n - 1) + 1] == routed(qs[n - 1], sends[n - 1].0, sends[n - 1].1));
    } else {
        assert(sends.take(0).len() == 0);
    }
}

/// Receiving after a run of successful `send_frame` calls hands out, in
/// submission order and each once, exactly the frames that reached the
/// receiver's MAC `m` (unicast to `m`, or broadcast from another MAC), and
/// leaves the queue empty. Step `k` is the `send_frame` of `frames[k]` from
/// the bound NIC `ids[k]`, as its contract states; the queue at `m` starts
/// empty.
pub proof fn lemma_sent_frames_received_in_order(
    nics: NicTable,
    ids: Seq<Seq<char>>,
    frames: Seq<Frame>,
    qs: Seq<Map<Seq<char>, Seq<Frame>>>,
    m: Seq<char>,
)
    requires
        ids.len() == frames.len(),
        qs.len() == frames.len() + 1,
        forall|k: int|
            0 <= k < frames.len() ==> nics.macs().contains_key(#[trigger] ids[k]) && qs[k + 1]
                == routed(qs[k], nics.macs()[ids[k]], frames[k]),
        qs[0].contains_key(m),
        qs[0][m] == Seq::<Frame>::empty(),
    ensures
        taken(qs.last(), m) == arrivals(qs[0], m, sends_of(nics, ids, frames)),
        after_take(qs.last(), m)[m] == Seq::<Frame>::empty(),
{
    let sends = sends_of(nics, ids, frames);
    assert forall|k: int| 0 <= k < sends.len() implies #[trigger] qs[k + 1] == routed(
        qs[k],
        sends[k].0,
        sends[k].1,
    ) by {
        assert(nics.macs().contains_key(ids[k]));
    }
    lemma_steps_route_all(qs, sends, sends.len() as int);
    assert(sends.take(sends.len() as int) =~= sends);
    lemma_queue_fifo(qs[0], m, sends);
    assert(qs[0][m] + arrivals(qs[0], m, sends) =~= arrivals(qs[0], m, sends));
}

/// What receiving on MAC `m` hands out: its whole queue, nothing when it has none.
pub open spec fn taken(q: Map<Seq<char>, Seq<Frame>>, m: Seq<char>) -> Seq<Frame> {
    if q.contains_key(m) {
        q[m]
    } else {
        Seq::empty()
    }
}

/// The queues after receiving on MAC `m`: its queue is empty.
pub open spec fn after_take(q: Map<Seq<char>, Seq<Frame>>, m: Seq<char>) -> Map<
    Seq<char>,
    Seq<Frame>,
> {
    if q.contains_key(m) {
        q.insert(m, Seq::empty())
    } else {
        q
    }
}

/// One FIFO queue of frames per MAC.
pub struct FrameQueues {
    queues: StrTable<Vec<Frame>>,
}

impl FrameQueues {
    pub closed spec fn wf(&self) -> bool {
        self.queues.wf()
    }

    /// MAC to the frames waiting there, oldest first.
    pub closed spec fn queues(&self) -> Map<Seq<char>, Seq<Frame>> {
        self.queues.map()
    }

    /// No queue.
    pub fn new() -> (r: Self)
        ensures
            r.wf(),
            r.queues() == Map::<Seq<char>, Seq<Frame>>::empty(),
    {
        FrameQueues { queues: StrTable::new() }
    }

    /// Creates an empty queue at `mac` unless there is one.
    pub fn open_queue(&mut self, mac: String)
        requires
            old(self).wf(),
        ensures
            final(self).wf(),
            final(self).queues() == (if old(self).queues().contains_key(mac@) {
                old(self).queues()
            } else {
                old(self).queues().insert(mac@, Seq::empty())
            }),
    {
        self.queues.insert_if_absent(mac, Vec::new());
    }

    /// Appends `frame` to the queue at index `i`.
    fn push_at(&mut self, i: usize, frame: Frame)
        requires
            old(self).wf(),
            i < old(self).queues.keys().len(),
        ensures
            final(self).wf(),
            final(self).queues.keys() == old(self).queues.keys(),
            final(self).queues.value_at(i as int) == old(self).queues.value_at(i as int).push(frame),
            forall|j: int|
                0 <= j < old(self).queues.keys().len() && j != i ==> #[trigger] final(self).queues.value_at(j)
                    == old(self).queues.value_at(j),
    {
        let mut q = self.queues.replace_at(i, Vec::new());
        q.push(frame);
        let _ = self.queues.replace_at(i, q);
    }

    /// Routes `frame` sent from the NIC whose MAC is `src_mac`: to the queue of
    /// its destination when there is one (unicast), and otherwise a copy to
    /// every queue but the sender's (broadcast).
    pub fn route(&mut self, src_mac: &String, frame: Frame)
        requires
            old(self).wf(),
        ensures
            final(self).wf(),
            final(self).queues() == routed(old(self).queues(), src_mac@, frame),
    {
        let ghost pre = self.queues;
        match self.queues.position(frame.dst()) {
            Some(i) => {
                self.push_at(i, frame);
                proof {
                    let ghost m = pre.map().insert(frame.dest(), pre.map()[frame.dest()].push(frame));
                    pre.lemma_index(i as int);
                    assert forall|j: int| 0 <= j < self.queues.keys().len() implies m[
                        #[trigger] self.queues.keys()[j]] == self.queues.value_at(j) by {
                        pre.lemma_index(j);
                    }
                    assert forall|k: Seq<char>| m.contains_key(k) <==> self.queues.keys().contains(k) by {
                        if k == frame.dest() {
                            assert(self.queues.keys()[i as int] == k);
                        }
                    }
                    self.queues.lemma_map_from_index(m);
                }
            },
            None => {
                let n = self.queues.len();
                let mut i: usize = 0;
                while i < n
                    invariant
                        self.wf(),
                        self.queues.keys() == pre.keys(),
                        n == pre.keys().len(),
                        i <= n,
                        forall|j: int|
                            0 <= j < i ==> #[trigger] self.queues.value_at(j) == (if pre.keys()[j]
                                == src_mac@ {
                                pre.value_at(j)
                            } else {
                                pre.value_at(j).push(frame)
                            }),
                        forall|j: int| i <= j < n ==> #[trigger] self.queues.value_at(j) == pre.value_at(j),
                    decreases n - i,
                {
                    let same = *self.queues.key_at(i) == *src_mac;
                    if !same {
                        self.push_at(i, frame.duplicate());
                    }
                    i = i + 1;
                }
                proof {
                    let ghost m = routed(pre.map(), src_mac@, frame);
                    assert forall|j: int| 0 <= j < self.queues.keys().len() implies m[
                        #[trigger] self.queues.keys()[j]] == self.queues.value_at(j) by {
                        pre.lemma_index(j);
                    }
                    self.queues.lemma_map_from_index(m);
                }
            },
        }
    }

    /// Hands out the whole queue at `mac`, oldest first, and empties it;
    /// nothing when there is no queue there.
    pub fn drain(&mut self, mac: &String) -> (r: Vec<Frame>)
        requires
            old(self).wf(),
        ensures
            final(self).wf(),
            r@ == taken(old(self).queues(), mac@),
            final(self).queues() == after_take(old(self).queues(), mac@),
    {
        let ghost pre = self.queues;
        match self.queues.position(mac) {
            Some(i) => {
                let r = self.queues.replace_at(i, Vec::new());
                proof {
                    let ghost m = pre.map().insert(mac@, Seq::empty());
                    pre.lemma_index(i as int);
                    assert forall|j: int| 0 <= j < self.queues.keys().len() implies m[
                        #[trigger] self.queues.keys()[j]] == self.queues.value_at(j) by {
                        pre.lemma_index(j);
                    }
                    assert forall|k: Seq<char>| m.contains_key(k) <==> self.queues.keys().contains(k) by {
                        if k == mac@ {
                            assert(self.queues.keys()[i as int] == k);
                        }
                    }
                    self.queues.lemma_map_from_index(m);
                }
                r
            },
            None => Vec::new(),
        }
    }
}

/// Registers NIC `id` with MAC `mac`: binds the id, replacing an earlier
/// binding, and opens an empty queue at `mac` unless there is one.
pub fn register_nic(nics: &mut NicTable, queues: &mut FrameQueues, id: String, mac: String)
    requires
        old(nics).wf(),
        old(queues).wf(),
    ensures
        final(nics).wf(),
        final(queues).wf(),
        final(nics).macs() == old(nics).macs().insert(id@, mac@),
        final(queues).queues() == (if old(queues).queues().contains_key(mac@) {
            old(queues).queues()
        } else {
            old(queues).queues().insert(mac@, Seq::empty())
        }),
{
    nics.bind(id, mac.clone());
    queues.open_queue(mac);
}

/// Sends `frame` from NIC `nic_id`, routed as `FrameQueues::route` says from
/// the MAC bound to it; `UnknownNic`, with nothing queued, when the id is not
/// bound.
pub fn send_frame(nics: &NicTable, queues: &mut FrameQueues, nic_id: &String, frame: Frame) -> (r:
    Result<(), HostError>)
    requires
        nics.wf(),
        old(queues).wf(),
    ensures
        final(queues).wf(),
        nics.macs().contains_key(nic_id@) ==> r is Ok && final(queues).queues() == routed(
            old(queues).queues(),
            nics.macs()[nic_id@],
            frame,
        ),
        !nics.macs().contains_key(nic_id@) ==> r == Err::<(), HostError>(HostError::UnknownNic)
            && final(queues).queues() == old(queues).queues(),
{
    let src = nics.sender_mac(nic_id)?;
    queues.route(&src, frame);
    Ok(())
}

/// Receives on NIC `nic_id`: the frames queued at its MAC, oldest first, and
/// that queue is emptied; nothing, with no change, for an unknown id.
pub fn receive_frames(nics: &NicTable, queues: &mut FrameQueues, nic_id: &String) -> (r: Vec<Frame>)
    requires
        nics.wf(),
        old(queues).wf(),
    ensures
        final(queues).wf(),
        nics.macs().contains_key(nic_id@) ==> r@ == taken(old(queues).queues(), nics.macs()[nic_id@])
            && final(queues).queues() == after_take(old(queues).queues(), nics.macs()[nic_id@]),
        !nics.macs().contains_key(nic_id@) ==> r@ == Seq::<Frame>::empty() && final(queues).queues()
            == old(queues).queues(),
{
    match nics.mac_of(nic_id) {
        Some(mac) => queues.drain(&mac),
        None => Vec::new(),
    }
}

} // verus!
