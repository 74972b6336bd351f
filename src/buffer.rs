use vstd::prelude::*;

use crate::error::Error;
use crate::wire::Endpoint;

verus! {

/// A packet buffer.
///
/// A packet is a sequence of octets and the endpoint associated with it.
/// Packets leave the buffer in the order in which they entered it: `enqueue`
/// appends to `packets()`, `dequeue` hands out and removes its first element.
pub trait Buffer: Sized {
    /// The packets held, oldest first.
    spec fn packets(&self) -> Seq<(Endpoint, Seq<u8>)>;

    /// Whether a packet of `size` octets can be enqueued now.
    spec fn accepts(&self, size: nat) -> bool;

    /// The buffer's internal invariant.
    spec fn wf(&self) -> bool;

    /// Enqueue a packet.
    ///
    /// Reserves `size` octets associated with `endpoint` and calls `f` on them.
    /// The packet is kept only if `f` succeeds; either way `f`'s result is
    /// returned. If the buffer cannot take a packet of that size now, `f` is
    /// not called and `Err(Error::Exhausted)` is returned.
    fn enqueue<R, F>(&mut self, endpoint: Endpoint, size: usize, f: F) -> (r: Result<R, Error>) where
        F: FnOnce(&mut [u8]) -> Result<R, Error>,
        requires
            old(self).wf(),
            forall|region: &mut [u8]| (*region)@.len() == size ==> #[trigger] f.requires((region,)),
            // A region keeps its length across the call. Every closure does,
            // but nothing else states it of a generic callback.
            forall|region: &mut [u8], r: Result<R, Error>| #[trigger]
                f.ensures((region,), r) ==> final(region)@.len() == (*region)@.len(),
        ensures
            final(self).wf(),
            !old(self).accepts(size as nat) ==> r == Err::<R, Error>(Error::Exhausted) && {
                &&& final(self).packets() == old(self).packets()
                &&& forall|n: nat| #[trigger] final(self).accepts(n) == old(self).accepts(n)
            },
            old(self).accepts(size as nat) ==> exists|region: &mut [u8]|
                {
                    &&& (*region)@.len() == size
                    &&& #[trigger] f.ensures((region,), r)
                    &&& r is Ok ==> final(self).packets() == old(self).packets().push(
                        (endpoint, final(region)@),
                    )
                    &&& r is Err ==> final(self).packets() == old(self).packets()
                    &&& r is Err ==> forall|n: nat| #[trigger] final(self).accepts(n) == old(self).accepts(n)
                },
    ;

    /// Dequeue a packet.
    ///
    /// Calls `f` with the oldest packet, removes that packet whatever `f`
    /// returns, and returns `f`'s result. If the buffer is empty, `f` is not
    /// called and `Err(Error::Exhausted)` is returned.
    fn dequeue<R, F>(&mut self, f: F) -> (r: Result<R, Error>) where
        F: FnOnce(Endpoint, &[u8]) -> Result<R, Error>,
        requires
            old(self).wf(),
            forall|endpoint: Endpoint, payload: &[u8]| #[trigger] f.requires((endpoint, payload)),
        ensures
            final(self).wf(),
            old(self).packets().len() == 0 ==> r == Err::<R, Error>(Error::Exhausted) && {
                &&& final(self).packets() == old(self).packets()
                &&& forall|n: nat| #[trigger] final(self).accepts(n) == old(self).accepts(n)
            },
            old(self).packets().len() > 0 ==> {
                &&& final(self).packets() == old(self).packets().drop_first()
                &&& exists|payload: &[u8]|
                    payload@ == old(self).packets()[0].1 && #[trigger] f.ensures(
                        (old(self).packets()[0].0, payload),
                        r,
                    )
            },
    ;
}

/// A packet buffer that does not have any storage.
///
/// It rejects every enqueue and dequeue with `Error::Exhausted`.
pub struct NullBuffer(());

impl NullBuffer {
    /// Create a null packet buffer.
    pub fn new() -> (r: NullBuffer)
        ensures
            r.wf(),
            r.packets().len() == 0,
    {
        NullBuffer(())
    }
}

impl Buffer for NullBuffer {
    open spec fn packets(&self) -> Seq<(Endpoint, Seq<u8>)> {
        Seq::empty()
    }

    open spec fn accepts(&self, size: nat) -> bool {
        false
    }

    open spec fn wf(&self) -> bool {
        true
    }

    fn enqueue<R, F>(&mut self, endpoint: Endpoint, size: usize, f: F) -> (r: Result<R, Error>) where
        F: FnOnce(&mut [u8]) -> Result<R, Error>,
        ensures
            r == Err::<R, Error>(Error::Exhausted),
    {
        Err(Error::Exhausted)
    }

    fn dequeue<R, F>(&mut self, f: F) -> (r: Result<R, Error>) where
        F: FnOnce(Endpoint, &[u8]) -> Result<R, Error>,
        ensures
            r == Err::<R, Error>(Error::Exhausted),
    {
        Err(Error::Exhausted)
    }
}

/// A packet buffer that stores at most one packet, in storage given at
/// construction.
///
/// While a packet is held, or when the requested size is larger than the
/// storage, an enqueue is rejected with `Error::Exhausted`.
pub struct UnitaryBuffer {
    endpoint: Option<Endpoint>,
    storage: Vec<u8>,
    size: usize,
}

impl UnitaryBuffer {
    /// The number of octets that the storage can hold.
    pub closed spec fn capacity(&self) -> nat {
        self.storage@.len()
    }

    /// Create a unitary packet buffer over the given storage; it starts empty.
    pub fn new(storage: Vec<u8>) -> (r: UnitaryBuffer)
        ensures
            r.wf(),
            r.packets().len() == 0,
            r.capacity() == storage@.len(),
    {
        UnitaryBuffer { endpoint: None, storage, size: 0 }
    }
}

impl Buffer for UnitaryBuffer {
    closed spec fn packets(&self) -> Seq<(Endpoint, Seq<u8>)> {
        match self.endpoint {
            None => Seq::empty(),
            Some(endpoint) => seq![(endpoint, self.storage@.subrange(0, self.size as int))],
        }
    }

    open spec fn accepts(&self, size: nat) -> bool {
        self.packets().len() == 0 && size <= self.capacity()
    }

    closed spec fn wf(&self) -> bool {
        self.endpoint is Some ==> self.size <= self.storage@.len()
    }

    fn enqueue<R, F>(&mut self, endpoint: Endpoint, size: usize, f: F) -> (r: Result<R, Error>) where
        F: FnOnce(&mut [u8]) -> Result<R, Error>,
        ensures
            final(self).capacity() == old(self).capacity(),
            final(self).packets().len() <= 1,
    {
        if self.endpoint.is_some() || size > self.storage.len() {
            return Err(Error::Exhausted);
        }
        let (region, _rest) = self.storage.as_mut_slice().split_at_mut(size);
        // If `f` fails, the packet is not kept.
        let result = f(region);
        if result.is_ok() {
            self.endpoint = Some(endpoint);
            self.size = size;
            assert(self.storage@.subrange(0, size as int) =~= final(region)@);
        }
        result
    }

    fn dequeue<R, F>(&mut self, f: F) -> (r: Result<R, Error>) where
        F: FnOnce(Endpoint, &[u8]) -> Result<R, Error>,
        ensures
            final(self).capacity() == old(self).capacity(),
            final(self).packets().len() == 0,
    {
        match self.endpoint {
            None => Err(Error::Exhausted),
            Some(endpoint) => {
                let payload = vstd::slice::slice_subrange(self.storage.as_slice(), 0, self.size);
                // The packet leaves even if `f` fails.
                let result = f(endpoint, payload);
                self.endpoint = None;
                assert(old(self).packets().drop_first() =~= self.packets());
                assert(payload@ == old(self).packets()[0].1);
                assert(f.ensures((old(self).packets()[0].0, payload), result));
                result
            },
        }
    }
}

/// Packets leave in the order in which they entered: after a packet `p` is
/// appended to a non-empty buffer, the next packet out is still the oldest one
/// that was there before, and `p` stays behind it.
pub proof fn lemma_fifo<B: Buffer>(before: B, after_enqueue: B, after_dequeue: B, p: (Endpoint, Seq<u8>))
    requires
        before.packets().len() > 0,
        after_enqueue.packets() == before.packets().push(p),
        after_dequeue.packets() == after_enqueue.packets().drop_first(),
    ensures
        after_enqueue.packets()[0] == before.packets()[0],
        after_dequeue.packets().len() == before.packets().len(),
        after_dequeue.packets().last() == p,
        forall|i: int| 0 <= i < before.packets().len() - 1 ==> after_dequeue.packets()[i] == before.packets()[i + 1],
{
}

/// A unitary buffer that holds a packet accepts no further packet, of any
/// size, until that packet is dequeued.
pub proof fn lemma_unitary_exclusive(b: UnitaryBuffer)
    requires
        b.packets().len() > 0,
    ensures
        forall|size: nat| !#[trigger] b.accepts(size),
{
}

/// A unitary buffer never accepts a packet larger than its storage.
pub proof fn lemma_unitary_capacity(b: UnitaryBuffer, size: nat)
    requires
        size > b.capacity(),
    ensures
        !b.accepts(size),
{
}

/// An empty unitary buffer whose packets are unchanged by an enqueue whose
/// callback failed is still empty, so a dequeue that follows finds nothing.
pub proof fn lemma_unitary_failed_enqueue(before: UnitaryBuffer, after: UnitaryBuffer)
    requires
        before.packets().len() == 0,
        after.packets() == before.packets(),
    ensures
        after.packets().len() == 0,
{
}

/// Round trip: an empty unitary buffer accepts any payload that fits in its
/// storage, and once the payload is enqueued with an endpoint, the packet that
/// a dequeue hands out is that endpoint and that payload, after which the
/// buffer is empty.
pub proof fn lemma_unitary_round_trip(
    empty: UnitaryBuffer,
    full: UnitaryBuffer,
    drained: UnitaryBuffer,
    endpoint: Endpoint,
    payload: Seq<u8>,
)
    requires
        empty.packets().len() == 0,
        payload.len() <= empty.capacity(),
        full.packets() == empty.packets().push((endpoint, payload)),
        drained.packets() == full.packets().drop_first(),
    ensures
        empty.accepts(payload.len()),
        full.packets()[0] == (endpoint, payload),
        drained.packets().len() == 0,
{
}

} // verus!
