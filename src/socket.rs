use vstd::prelude::*;

use crate::buffer::Buffer;
use crate::error::Error;
use crate::wire::{Address, Endpoint, UdpRepr};

verus! {

/// Whether a socket bound to `local` takes a datagram sent to `dst_addr` on
/// `dst_port`: the port must be the bound port, and the address the bound
/// address unless that is the wildcard address.
pub open spec fn admits(local: Endpoint, dst_addr: Address, dst_port: u16) -> bool {
    &&& dst_port == local.port
    &&& !local.addr.spec_is_unspecified() ==> dst_addr == local.addr
}

/// The port filter: a datagram sent to a port other than the bound port is
/// never admitted, whatever its address.
pub proof fn lemma_port_filter(local: Endpoint, dst_addr: Address, dst_port: u16)
    ensures
        dst_port != local.port ==> !admits(local, dst_addr, dst_port),
        admits(local, dst_addr, dst_port) ==> dst_port == local.port,
{
}

/// The address filter: on the bound port, a socket bound to the wildcard
/// address admits every destination address, and a socket bound to a concrete
/// address admits exactly that address.
pub proof fn lemma_address_filter(local: Endpoint, dst_addr: Address)
    ensures
        local.addr.spec_is_unspecified() ==> admits(local, dst_addr, local.port),
        !local.addr.spec_is_unspecified() ==> (admits(local, dst_addr, local.port) <==> dst_addr
            == local.addr),
{
}

/// Whether two buffers hold the same packets and accept the same sizes.
pub open spec fn same_model<B: Buffer>(a: B, b: B) -> bool {
    &&& a.packets() == b.packets()
    &&& forall|n: nat| #![trigger a.accepts(n)] #![trigger b.accepts(n)] a.accepts(n) == b.accepts(n)
}

/// Copy `src` over the first `src.len()` octets of `dst`.
fn copy_prefix(dst: &mut [u8], src: &[u8])
    requires
        src@.len() <= old(dst)@.len(),
    ensures
        final(dst)@ == src@ + old(dst)@.subrange(src@.len() as int, old(dst)@.len() as int),
        old(dst)@.len() == src@.len() ==> final(dst)@ == src@,
{
    let n = src.len();
    let mut i: usize = 0;
    while i < n
        invariant
            n == src@.len(),
            n <= old(dst)@.len(),
            dst@.len() == old(dst)@.len(),
            0 <= i <= n,
            forall|j: int| 0 <= j < i ==> dst@[j] == src@[j],
            forall|j: int| n <= j < dst@.len() ==> dst@[j] == old(dst)@[j],
        decreases n - i,
    {
        dst[i] = src[i];
        i = i + 1;
    }
    assert(dst@ =~= src@ + old(dst)@.subrange(n as int, old(dst)@.len() as int));
    assert(old(dst)@.len() == n ==> dst@ =~= src@);
}

/// A User Datagram Protocol socket.
///
/// It is bound to a local endpoint and holds a receive and a transmit buffer.
pub struct Socket<RxBufferT: Buffer, TxBufferT: Buffer> {
    endpoint: Endpoint,
    rx_buffer: RxBufferT,
    tx_buffer: TxBufferT,
}

impl<RxBufferT: Buffer, TxBufferT: Buffer> Socket<RxBufferT, TxBufferT> {
    /// The endpoint that the socket is bound to.
    pub closed spec fn local(&self) -> Endpoint {
        self.endpoint
    }

    /// The receive buffer.
    pub closed spec fn rx(&self) -> RxBufferT {
        self.rx_buffer
    }

    /// The transmit buffer.
    pub closed spec fn tx(&self) -> TxBufferT {
        self.tx_buffer
    }

    pub open spec fn wf(&self) -> bool {
        self.rx().wf() && self.tx().wf()
    }

    /// Create a UDP socket bound to `endpoint`, with the given buffers.
    pub fn new(endpoint: Endpoint, rx_buffer: RxBufferT, tx_buffer: TxBufferT) -> (r: Socket<
        RxBufferT,
        TxBufferT,
    >)
        ensures
            r.local() == endpoint,
            r.rx() == rx_buffer,
            r.tx() == tx_buffer,
    {
        Socket { endpoint, rx_buffer, tx_buffer }
    }

    /// Send a packet to a remote endpoint, copying `data` into the transmit
    /// buffer.
    ///
    /// Returns `Err(Error::Exhausted)` if the transmit buffer cannot take a
    /// packet of `data.len()` octets now.
    pub fn send_slice(&mut self, endpoint: Endpoint, data: &[u8]) -> (r: Result<(), Error>)
        requires
            old(self).wf(),
        ensures
            final(self).wf(),
            final(self).local() == old(self).local(),
            final(self).rx() == old(self).rx(),
            old(self).tx().accepts(data@.len()) ==> r is Ok && final(self).tx().packets() == old(self).tx().packets().push((endpoint, data@)),
            !old(self).tx().accepts(data@.len()) ==> r == Err::<(), Error>(Error::Exhausted)
                && same_model(final(self).tx(), old(self).tx()),
    {
        self.tx_buffer.enqueue(
            endpoint,
            data.len(),
            (|buffer: &mut [u8]| -> (r: Result<(), Error>)
                requires
                    old(buffer)@.len() == data@.len(),
                ensures
                    final(buffer)@.len() == old(buffer)@.len(),
                    final(buffer)@ == data@,
                    r is Ok,
                {
                    copy_prefix(buffer, data);
                    Ok(())
                }),
        )
    }

    /// Process a datagram that arrived from `src_addr` for `dst_addr`.
    ///
    /// If the datagram is addressed to this socket, its payload is copied into
    /// the receive buffer, with the sender's address and port as the packet's
    /// endpoint. Otherwise `Err(Error::Rejected)` is returned. A datagram for
    /// this socket that the receive buffer cannot take gives
    /// `Err(Error::Exhausted)`.
    pub fn collect(&mut self, src_addr: Address, dst_addr: Address, repr: &UdpRepr) -> (r: Result<
        (),
        Error,
    >)
        requires
            old(self).wf(),
        ensures
            final(self).wf(),
            final(self).local() == old(self).local(),
            final(self).tx() == old(self).tx(),
            !admits(old(self).local(), dst_addr, repr.dst_port) ==> r == Err::<(), Error>(
                Error::Rejected,
            ) && final(self).rx() == old(self).rx(),
            admits(old(self).local(), dst_addr, repr.dst_port) && old(self).rx().accepts(
                repr.payload@.len(),
            ) ==> r is Ok && final(self).rx().packets() == old(self).rx().packets().push((Endpoint { addr: src_addr, port: repr.src_port }, repr.payload@)),
            admits(old(self).local(), dst_addr, repr.dst_port) && !old(self).rx().accepts(
                repr.payload@.len(),
            ) ==> r == Err::<(), Error>(Error::Exhausted) && same_model(
                final(self).rx(),
                old(self).rx(),
            ),
    {
        if repr.dst_port != self.endpoint.port {
            return Err(Error::Rejected);
        }
        if !self.endpoint.addr.is_unspecified() {
            if self.endpoint.addr != dst_addr {
                return Err(Error::Rejected);
            }
        }
        let endpoint = Endpoint { addr: src_addr, port: repr.src_port };
        let payload = repr.payload;
        self.rx_buffer.enqueue(
            endpoint,
            payload.len(),
            (|buffer: &mut [u8]| -> (r: Result<(), Error>)
                requires
                    old(buffer)@.len() == payload@.len(),
                ensures
                    final(buffer)@.len() == old(buffer)@.len(),
                    final(buffer)@ == payload@,
                    r is Ok,
                {
                    copy_prefix(buffer, payload);
                    Ok(())
                }),
        )
    }

    /// Send a packet to a remote endpoint without copying: `f` writes the
    /// payload into the `size` octets reserved for it in the transmit buffer.
    ///
    /// The packet is kept only if `f` succeeds; `f`'s result is returned. If
    /// the transmit buffer cannot take a packet of `size` octets now, `f` is not
    /// called and `Err(Error::Exhausted)` is returned.
    pub fn send<R, F>(&mut self, endpoint: Endpoint, size: usize, f: F) -> (r: Result<R, Error>) where
        F: FnOnce(&mut [u8]) -> Result<R, Error>,
        requires
            old(self).wf(),
            forall|region: &mut [u8]| (*region)@.len() == size ==> #[trigger] f.requires((region,)),
            forall|region: &mut [u8], r: Result<R, Error>| #[trigger]
                f.ensures((region,), r) ==> final(region)@.len() == (*region)@.len(),
        ensures
            final(self).wf(),
            final(self).local() == old(self).local(),
            final(self).rx() == old(self).rx(),
            !old(self).tx().accepts(size as nat) ==> r == Err::<R, Error>(Error::Exhausted)
                && same_model(final(self).tx(), old(self).tx()),
            old(self).tx().accepts(size as nat) ==> exists|region: &mut [u8]|
                {
                    &&& (*region)@.len() == size
                    &&& #[trigger] f.ensures((region,), r)
                    &&& r is Ok ==> final(self).tx().packets() == old(self).tx().packets().push((endpoint, final(region)@))
                    &&& r is Err ==> same_model(final(self).tx(), old(self).tx())
                },
    {
        self.tx_buffer.enqueue(endpoint, size, f)
    }

    /// Receive a packet without copying: `f` is called with the oldest packet's
    /// endpoint and payload.
    ///
    /// The packet is removed whatever `f` returns, and `f`'s result is
    /// returned. If the receive buffer is empty, `f` is not called and
    /// `Err(Error::Exhausted)` is returned.
    pub fn recv<R, F>(&mut self, f: F) -> (r: Result<R, Error>) where
        F: FnOnce(Endpoint, &[u8]) -> Result<R, Error>,
        requires
            old(self).wf(),
            forall|endpoint: Endpoint, payload: &[u8]| #[trigger] f.requires((endpoint, payload)),
        ensures
            final(self).wf(),
            final(self).local() == old(self).local(),
            final(self).tx() == old(self).tx(),
            old(self).rx().packets().len() == 0 ==> r == Err::<R, Error>(Error::Exhausted)
                && same_model(final(self).rx(), old(self).rx()),
            old(self).rx().packets().len() > 0 ==> {
                &&& final(self).rx().packets() == old(self).rx().packets().drop_first()
                &&& exists|payload: &[u8]|
                    payload@ == old(self).rx().packets()[0].1 && #[trigger] f.ensures(
                        (old(self).rx().packets()[0].0, payload),
                        r,
                    )
            },
    {
        self.rx_buffer.dequeue(f)
    }

    /// Receive a packet, copying its payload to the start of `data`; returns
    /// the payload's length and the sender's endpoint.
    ///
    /// If `data` is shorter than the payload, `Err(Error::Exhausted)` is
    /// returned and the packet is lost all the same. If the receive buffer is
    /// empty, `Err(Error::Exhausted)` is returned.
    pub fn recv_slice(&mut self, data: &mut [u8]) -> (r: Result<(usize, Endpoint), Error>)
        requires
            old(self).wf(),
        ensures
            final(self).wf(),
            final(self).local() == old(self).local(),
            final(self).tx() == old(self).tx(),
            old(self).rx().packets().len() == 0 ==> {
                &&& r == Err::<(usize, Endpoint), Error>(Error::Exhausted)
                &&& same_model(final(self).rx(), old(self).rx())
                &&& final(data)@ == old(data)@
            },
            old(self).rx().packets().len() > 0 ==> {
                let packet = old(self).rx().packets()[0];
                &&& final(self).rx().packets() == old(self).rx().packets().drop_first()
                &&& packet.1.len() > old(data)@.len() ==> r == Err::<(usize, Endpoint), Error>(
                    Error::Exhausted,
                ) && final(data)@ == old(data)@
                &&& packet.1.len() <= old(data)@.len() ==> r == Ok::<(usize, Endpoint), Error>(
                    (packet.1.len() as usize, packet.0),
                ) && final(data)@ == packet.1 + old(data)@.subrange(
                    packet.1.len() as int,
                    old(data)@.len() as int,
                )
            },
    {
        let room = data.len();
        let received = self.rx_buffer.dequeue(
            (|endpoint: Endpoint, buffer: &[u8]| -> (r: Result<(Vec<u8>, Endpoint), Error>)
                ensures
                    buffer@.len() > room ==> r is Err && r->Err_0 == Error::Exhausted,
                    buffer@.len() <= room ==> r is Ok && r->Ok_0.0@ == buffer@ && r->Ok_0.1
                        == endpoint,
                {
                    if room < buffer.len() {
                        Err(Error::Exhausted)
                    } else {
                        Ok((vstd::slice::slice_to_vec(buffer), endpoint))
                    }
                }),
        );
        match received {
            Ok((packet, endpoint)) => {
                copy_prefix(data, packet.as_slice());
                Ok((packet.len(), endpoint))
            },
            Err(e) => Err(e),
        }
    }

    /// Hand the oldest packet of the transmit buffer to `f`, as the source
    /// address, the destination address and the datagram to emit; the source
    /// is this socket's endpoint, the destination the packet's.
    ///
    /// The packet is removed whatever `f` returns, and `f`'s result is
    /// returned. If the transmit buffer is empty, `f` is not called and
    /// `Err(Error::Exhausted)` is returned.
    pub fn dispatch<R, F>(&mut self, f: F) -> (r: Result<R, Error>) where
        F: for <'a>FnOnce(Address, Address, &UdpRepr<'a>) -> Result<R, Error>,
        requires
            old(self).wf(),
            forall|src: Address, dst: Address, repr: &UdpRepr| #[trigger] f.requires((src, dst, repr)),
        ensures
            final(self).wf(),
            final(self).local() == old(self).local(),
            final(self).rx() == old(self).rx(),
            old(self).tx().packets().len() == 0 ==> r == Err::<R, Error>(Error::Exhausted)
                && same_model(final(self).tx(), old(self).tx()),
            old(self).tx().packets().len() > 0 ==> {
                let packet = old(self).tx().packets()[0];
                &&& final(self).tx().packets() == old(self).tx().packets().drop_first()
                &&& exists|repr: &UdpRepr|
                    {
                        &&& repr.src_port == old(self).local().port
                        &&& repr.dst_port == packet.0.port
                        &&& repr.payload@ == packet.1
                        &&& #[trigger] f.ensures((old(self).local().addr, packet.0.addr, repr), r)
                    }
            },
    {
        let src_endpoint = self.endpoint;
        self.tx_buffer.dequeue(
            (move |dst_endpoint: Endpoint, buffer: &[u8]| -> (r: Result<R, Error>)
                requires
                    forall|src: Address, dst: Address, repr: &UdpRepr| #[trigger] f.requires((src, dst, repr)),
                ensures
                    f.ensures(
                        (
                            src_endpoint.addr,
                            dst_endpoint.addr,
                            &UdpRepr { src_port: src_endpoint.port, dst_port: dst_endpoint.port, payload: buffer },
                        ),
                        r,
                    ),
                {
                    f(
                        src_endpoint.addr,
                        dst_endpoint.addr,
                        &UdpRepr { src_port: src_endpoint.port, dst_port: dst_endpoint.port, payload: buffer },
                    )
                }),
        )
    }
}

} // verus!
