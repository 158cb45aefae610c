use vstd::prelude::*;
use crate::buffer::OsIpcSharedMemory;
use crate::channel::{
    unpack_message, wait_receive, MessageReceiver, OsIpcReceiver, OsOpaqueIpcChannel,
};
use crate::error::ChannelError;

verus! {

/// The one event a call to `select` produces: either a message from the
/// receiver registered under the carried id, or the news that this
/// receiver's channel closed and the id was retired.
pub enum OsIpcSelectionResult {
    DataReceived(u64, Vec<u8>, Vec<OsOpaqueIpcChannel>, Vec<OsIpcSharedMemory>),
    ChannelClosed(u64),
}

impl OsIpcSelectionResult {
    /// The contents of a data event. Callers must branch on the event kind
    /// first: unwrapping a ChannelClosed event is a caller bug, so it is
    /// demanded away here.
    pub fn unwrap(self) -> (r: (u64, Vec<u8>, Vec<OsOpaqueIpcChannel>, Vec<OsIpcSharedMemory>))
        requires
            self is DataReceived,
        ensures
            self == OsIpcSelectionResult::DataReceived(r.0, r.1, r.2, r.3),
    {
        match self {
            OsIpcSelectionResult::DataReceived(id, data, channels, shmems) => (
                id,
                data,
                channels,
                shmems,
            ),
            OsIpcSelectionResult::ChannelClosed(_) => vstd::pervasive::unreached(),
        }
    }
}

/// A multiplexing wait over any number of receivers. Each added receiver is
/// registered under a fresh id; ids grow monotonically and are never reused,
/// even after a receiver is removed.
pub struct OsIpcReceiverSet {
    next_id: u64,
    ids: Vec<u64>,
    receivers: Vec<OsIpcReceiver>,
}

impl OsIpcReceiverSet {
    /// The ids currently registered, in order of addition.
    pub closed spec fn registered(&self) -> Seq<u64> {
        self.ids@
    }

    /// The id the next `add` will assign; larger than every id ever handed
    /// out by this set.
    pub closed spec fn counter(&self) -> u64 {
        self.next_id
    }

    /// Well-formedness: one live receiver per registered id, ids pairwise
    /// distinct and all below the counter.
    pub closed spec fn wf(&self) -> bool {
        &&& self.ids@.len() == self.receivers@.len()
        &&& (forall|i: int| 0 <= i < self.ids@.len() ==> self.ids@[i] < self.next_id)
        &&& (forall|i: int, j: int|
            0 <= i < j < self.ids@.len() ==> self.ids@[i] != self.ids@[j])
        &&& (forall|i: int| 0 <= i < self.receivers@.len() ==> self.receivers@[i].is_live())
    }

    /// An empty set whose id counter starts at 0. Construction itself cannot
    /// fail.
    pub fn new() -> (r: Result<OsIpcReceiverSet, ChannelError>)
        ensures
            r is Ok,
            r matches Ok(s) ==> s.wf() && s.registered().len() == 0 && s.counter() == 0,
    {
        Ok(OsIpcReceiverSet { next_id: 0, ids: Vec::new(), receivers: Vec::new() })
    }

    /// Moves `receiver` into the set and hands back the id it is registered
    /// under: exactly the current counter, which no earlier `add` ever
    /// returned and no later one will return again.
    pub fn add(&mut self, receiver: OsIpcReceiver) -> (r: Result<u64, ChannelError>)
        requires
            old(self).wf(),
            receiver.is_live(),
            old(self).counter() < u64::MAX,
        ensures
            final(self).wf(),
            r is Ok,
            r matches Ok(id) ==> {
                &&& id == old(self).counter()
                &&& !old(self).registered().contains(id)
                &&& final(self).counter() == id + 1
                &&& final(self).registered() == old(self).registered().push(id)
            },
    {
        let mut receiver = receiver;
        let moved = receiver.consume();
        let id = self.next_id;
        self.next_id = self.next_id + 1;
        self.ids.push(id);
        self.receivers.push(moved);
        Ok(id)
    }

    /// Blocks until one registered receiver is ready and reports exactly one
    /// event for it. On an empty set it fails with Unknown at once, without
    /// suspending. A DataReceived event leaves the set as it was; a
    /// ChannelClosed event retires the reported id for good.
    pub fn select(&mut self) -> (r: Result<Vec<OsIpcSelectionResult>, ChannelError>)
        requires
            old(self).wf(),
        ensures
            final(self).wf(),
            final(self).counter() == old(self).counter(),
            old(self).registered().len() == 0 ==> r == Err::<
                Vec<OsIpcSelectionResult>,
                ChannelError,
            >(ChannelError::UnknownError) && *final(self) == *old(self),
            old(self).registered().len() > 0 ==> r is Ok,
            r matches Ok(events) ==> {
                &&& events@.len() == 1
                &&& match events@[0] {
                    OsIpcSelectionResult::DataReceived(id, _, _, _) => {
                        &&& old(self).registered().contains(id)
                        &&& *final(self) == *old(self)
                    },
                    OsIpcSelectionResult::ChannelClosed(id) => {
                        &&& exists|i: int|
                            0 <= i < old(self).registered().len()
                                && old(self).registered()[i] == id
                                && final(self).registered() == old(self).registered().remove(i)
                        &&& !final(self).registered().contains(id)
                    },
                }
            },
    {
        if self.receivers.len() == 0 {
            return Err(ChannelError::UnknownError);
        }
        let mut borrows: Vec<&MessageReceiver> = Vec::new();
        let mut i: usize = 0;
        while i < self.receivers.len()
            invariant
                self.wf(),
                i <= self.receivers@.len(),
                borrows@.len() == i,
            decreases self.receivers@.len() - i,
        {
            let rcv = &self.receivers[i];
            match &rcv.inner {
                Some(inner) => {
                    borrows.push(&inner.receiver);
                },
                None => {
                    proof {
                        rcv.lemma_live_inner();
                        assert(false);
                    }
                },
            }
            i += 1;
        }
        let (idx, received) = wait_receive(&borrows);
        let r_id = self.ids[idx];
        match received {
            Some(m) => {
                let (data, channels, shmems) = unpack_message(m);
                proof {
                    assert(self.registered().contains(r_id)) by {
                        assert(self.registered()[idx as int] == r_id);
                    }
                }
                Ok(vec![OsIpcSelectionResult::DataReceived(r_id, data, channels, shmems)])
            },
            None => {
                self.receivers.remove(idx);
                self.ids.remove(idx);
                proof {
                    assert(self.registered() == old(self).registered().remove(idx as int));
                    assert forall|k: int| 0 <= k < self.registered().len() implies self
                        .registered()[k] != r_id by {
                        if k < idx {
                            assert(self.registered()[k] == old(self).registered()[k]);
                        } else {
                            assert(self.registered()[k] == old(self).registered()[k + 1]);
                        }
                    }
                }
                Ok(vec![OsIpcSelectionResult::ChannelClosed(r_id)])
            },
        }
    }
}

/// Law: ids are unique for the set's lifetime. Every id the set ever handed
/// out lies below the counter, so the id the next `add` assigns (the counter
/// itself) differs from each of them, registered or long removed.
pub proof fn lemma_next_id_fresh(s: OsIpcReceiverSet, past_id: u64)
    requires
        s.wf(),
        past_id < s.counter(),
    ensures
        past_id != s.counter(),
        !s.registered().contains(s.counter()),
{
}

} // verus!
