//! The channel broker: identity and request shape of every sub-channel.
//!
//! For each accepted local connection the broker opens one direct sub-channel
//! of the transport session and tags its two endpoints with a fresh stream
//! id. The ids are allocated here, from one allocator shared by all
//! concurrent connections of a session, so they are strictly increasing and
//! never reused.

use vstd::prelude::*;

verus! {

/// Allocates the per-session stream ids handed to channel endpoints.
pub struct StreamIdAllocator {
    next: u64,
    issued: Ghost<Seq<u64>>,
}

impl StreamIdAllocator {
    /// The ids handed out so far, oldest first.
    pub closed spec fn issued(self) -> Seq<u64> {
        self.issued@
    }

    /// The id the next successful channel open will receive.
    pub closed spec fn next_id(self) -> u64 {
        self.next
    }

    /// Every issued id equals its position in the issue order, and the next
    /// id follows directly after the last issued one.
    pub closed spec fn wf(self) -> bool {
        &&& self.issued@.len() == self.next as nat
        &&& forall|i: int| 0 <= i < self.issued@.len() ==> self.issued@[i] == i as u64
    }

    /// A fresh allocator that has issued nothing.
    pub fn new() -> (allocator: Self)
        ensures
            allocator.wf(),
            allocator.issued() == Seq::<u64>::empty(),
            allocator.next_id() == 0,
    {
        StreamIdAllocator { next: 0, issued: Ghost(Seq::empty()) }
    }

    /// The id the next allocation will return, for callers that must check
    /// the allocator is not exhausted before allocating.
    pub fn peek_next(&self) -> (id: u64)
        ensures
            id == self.next_id(),
    {
        self.next
    }

    /// Hands out the next stream id; called exactly once per successfully
    /// opened channel. The returned id is strictly greater than every id
    /// issued before, so it is issued for the first time.
    pub fn allocate(&mut self) -> (id: u64)
        requires
            old(self).wf(),
            old(self).next_id() < u64::MAX,
        ensures
            final(self).wf(),
            id == old(self).next_id(),
            final(self).next_id() == old(self).next_id() + 1,
            final(self).issued() == old(self).issued().push(id),
            forall|i: int| 0 <= i < old(self).issued().len() ==> old(self).issued()[i] < id,
            !old(self).issued().contains(id),
    {
        let id = self.next;
        self.next = self.next + 1;
        self.issued = Ghost(self.issued@.push(id));
        id
    }
}

/// Stream ids are pairwise distinct: no id is ever issued twice by one
/// allocator, so concurrently open channels of a session never share an id.
pub proof fn lemma_issued_ids_distinct(allocator: StreamIdAllocator)
    requires
        allocator.wf(),
    ensures
        forall|i: int, j: int|
            0 <= i < allocator.issued().len() && 0 <= j < allocator.issued().len() && i != j
                ==> allocator.issued()[i] != allocator.issued()[j],
{
}

/// The request the broker makes to open one direct sub-channel.
pub struct ChannelOpenRequest {
    /// Host the far side of the session should connect to.
    pub target_host: String,
    /// Port the far side of the session should connect to.
    pub target_port: u16,
    /// Originator host reported to the far side.
    pub originator_host: String,
    /// Originator port reported to the far side.
    pub originator_port: u16,
}

/// Builds the direct-channel request for one accepted connection. The
/// originator tuple is deliberately set equal to the target tuple rather
/// than to the local peer's address; a correct originator would name the
/// local peer.
pub fn direct_channel_request(host: &str, port: u16) -> (request: ChannelOpenRequest)
    ensures
        request.target_host@ == host@,
        request.target_port == port,
        request.originator_host@ == request.target_host@,
        request.originator_port == request.target_port,
{
    ChannelOpenRequest {
        target_host: host.to_owned(),
        target_port: port,
        originator_host: host.to_owned(),
        originator_port: port,
    }
}

} // verus!
