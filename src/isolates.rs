//! The registry of paused per-process isolates.
//!
//! An isolate is in the table exactly while it is paused between slices:
//! a slice takes it out, runs it, and puts it back.
use crate::error::HostError;
use std::collections::HashMap;
use vstd::prelude::*;

verus! {

broadcast use vstd::std_specs::hash::group_hash_axioms;

/// How a slice gets its isolate.
pub enum SliceStart<R> {
    /// The paused isolate of the process, taken out of the table.
    Resume(R),
    /// No isolate was paused: one is to be built from this source.
    Fresh(String),
}

/// Paused isolates by process id. `R` is the engine-side runtime.
pub struct IsolateTable<R> {
    entries: HashMap<u32, R>,
}

/// `post` is `pre` after a slice for `pid` began with optional source `code`,
/// giving `r`.
pub open spec fn slice_begun<R>(
    pre: IsolateTable<R>,
    post: IsolateTable<R>,
    pid: u32,
    code: Option<String>,
    r: Result<SliceStart<R>, HostError>,
) -> bool {
    &&& post.entries() == pre.entries().remove(pid)
    &&& r == (if pre.entries().contains_key(pid) {
        Ok(SliceStart::Resume(pre.entries()[pid]))
    } else {
        match code {
            Some(c) => Ok(SliceStart::Fresh(c)),
            None => Err(HostError::NoCode),
        }
    })
}

/// `post` is `pre` after the slice of `pid` ended and left `rt` paused.
pub open spec fn slice_ended<R>(pre: IsolateTable<R>, post: IsolateTable<R>, pid: u32, rt: R) -> bool {
    post.entries() == pre.entries().insert(pid, rt)
}

impl<R> IsolateTable<R> {
    /// The paused isolates.
    pub closed spec fn entries(&self) -> Map<u32, R> {
        self.entries@
    }

    /// A table with no isolate.
    pub fn new() -> (r: Self)
        ensures
            r.entries() == Map::<u32, R>::empty(),
    {
        IsolateTable { entries: HashMap::new() }
    }

    /// Whether `pid` has a paused isolate.
    pub fn is_registered(&self, pid: u32) -> (r: bool)
        ensures
            r == self.entries().contains_key(pid),
    {
        self.entries.contains_key(&pid)
    }

    /// Starts a slice of `pid`: takes its paused isolate out of the table, or
    /// else asks for one to be built from `code`; fails with `NoCode` when
    /// there is neither.
    pub fn begin_slice(&mut self, pid: u32, code: Option<String>) -> (r: Result<
        SliceStart<R>,
        HostError,
    >)
        ensures
            slice_begun(*old(self), *final(self), pid, code, r),
    {
        match self.entries.remove(&pid) {
            Some(rt) => Ok(SliceStart::Resume(rt)),
            None => match code {
                Some(c) => Ok(SliceStart::Fresh(c)),
                None => Err(HostError::NoCode),
            },
        }
    }

    /// Ends a slice of `pid`: the isolate, advanced or not, is paused again.
    pub fn end_slice(&mut self, pid: u32, rt: R)
        ensures
            slice_ended(*old(self), *final(self), pid, rt),
    {
        self.entries.insert(pid, rt);
    }

    /// Removes and destroys the isolate of `pid`; nothing happens when there
    /// is none.
    pub fn drop_isolate(&mut self, pid: u32)
        ensures
            final(self).entries() == old(self).entries().remove(pid),
    {
        let _ = self.entries.remove(&pid);
    }
}

/// Isolates persist across slices: the isolate that one slice of `pid` leaves
/// paused is the one that the next slice of `pid` resumes, whatever source
/// that slice offers; a slice of `pid` changes no other process's entry; and
/// between the two slices `pid` is registered.
pub proof fn lemma_isolate_persists_across_slices<R>(
    t0: IsolateTable<R>,
    t1: IsolateTable<R>,
    t2: IsolateTable<R>,
    t3: IsolateTable<R>,
    pid: u32,
    code1: Option<String>,
    r1: Result<SliceStart<R>, HostError>,
    rt: R,
    code2: Option<String>,
    r2: Result<SliceStart<R>, HostError>,
    other: u32,
)
    requires
        slice_begun(t0, t1, pid, code1, r1),
        slice_ended(t1, t2, pid, rt),
        slice_begun(t2, t3, pid, code2, r2),
        other != pid,
    ensures
        t2.entries().contains_key(pid),
        r2 == Ok::<SliceStart<R>, HostError>(SliceStart::Resume(rt)),
        t2.entries().contains_key(other) == t0.entries().contains_key(other),
        t2.entries().contains_key(other) ==> t2.entries()[other] == t0.entries()[other],
{
}

} // verus!
