use udp_socket::{Address, Buffer, Endpoint, Error, NullBuffer, Socket, UdpRepr, UnitaryBuffer};

fn unitary16() -> UnitaryBuffer {
    UnitaryBuffer::new(vec![0u8; 16])
}

fn socket_at(local: Endpoint) -> Socket<UnitaryBuffer, UnitaryBuffer> {
    Socket::new(local, unitary16(), unitary16())
}

fn wildcard_socket() -> Socket<UnitaryBuffer, UnitaryBuffer> {
    socket_at(Endpoint::new(Address::Ipv4(0, 0, 0, 0), 6969))
}

fn peer() -> Endpoint {
    Endpoint::new(Address::Ipv4(10, 0, 0, 2), 53)
}

#[test]
fn null_buffer_rejects_enqueue_without_calling() {
    let mut b = NullBuffer::new();
    let mut called = false;
    let r: Result<(), Error> = b.enqueue(peer(), 0, |_| {
        called = true;
        Ok(())
    });
    assert_eq!(r, Err(Error::Exhausted));
    assert!(!called);
    let r: Result<(), Error> = b.enqueue(Endpoint::invalid(), 1000, |_| Ok(()));
    assert_eq!(r, Err(Error::Exhausted));
}

#[test]
fn null_buffer_rejects_dequeue_without_calling() {
    let mut b = NullBuffer::new();
    let mut called = false;
    let r: Result<(), Error> = b.dequeue(|_, _| {
        called = true;
        Ok(())
    });
    assert_eq!(r, Err(Error::Exhausted));
    assert!(!called);
}

#[test]
fn unitary_rejects_second_enqueue() {
    let mut b = unitary16();
    assert_eq!(b.enqueue(peer(), 2, |buf| {
        buf.copy_from_slice(&[1, 2]);
        Ok(7)
    }), Ok(7));
    let mut called = false;
    let r: Result<(), Error> = b.enqueue(peer(), 0, |_| {
        called = true;
        Ok(())
    });
    assert_eq!(r, Err(Error::Exhausted));
    assert!(!called);
}

#[test]
fn unitary_zero_length_packet_occupies_slot() {
    let mut b = unitary16();
    assert_eq!(b.enqueue(peer(), 0, |buf| {
        assert_eq!(buf.len(), 0);
        Ok(())
    }), Ok(()));
    assert_eq!(b.enqueue(peer(), 0, |_| Ok(())), Err(Error::Exhausted));
    assert_eq!(b.dequeue(|e, p| Ok((e, p.len()))), Ok((peer(), 0)));
}

#[test]
fn unitary_rejects_oversize_without_calling() {
    let mut b = unitary16();
    let mut called = false;
    let r: Result<(), Error> = b.enqueue(peer(), 17, |_| {
        called = true;
        Ok(())
    });
    assert_eq!(r, Err(Error::Exhausted));
    assert!(!called);
    // Still empty: a packet that fits is accepted.
    assert_eq!(b.enqueue(peer(), 16, |buf| {
        assert_eq!(buf.len(), 16);
        Ok(())
    }), Ok(()));
}

#[test]
fn unitary_failed_enqueue_leaves_buffer_empty() {
    let mut b = unitary16();
    let r: Result<(), Error> = b.enqueue(peer(), 4, |buf| {
        buf.copy_from_slice(&[9, 9, 9, 9]);
        Err(Error::Malformed)
    });
    assert_eq!(r, Err(Error::Malformed));
    let r: Result<(), Error> = b.dequeue(|_, _| Ok(()));
    assert_eq!(r, Err(Error::Exhausted));
}

#[test]
fn unitary_dequeue_empties_even_when_callback_fails() {
    let mut b = unitary16();
    assert_eq!(b.enqueue(peer(), 1, |buf| {
        buf[0] = 5;
        Ok(())
    }), Ok(()));
    let r: Result<(), Error> = b.dequeue(|_, _| Err(Error::Truncated));
    assert_eq!(r, Err(Error::Truncated));
    let r: Result<(), Error> = b.dequeue(|_, _| Ok(()));
    assert_eq!(r, Err(Error::Exhausted));
}

#[test]
fn unitary_round_trip() {
    let mut b = unitary16();
    let payload = [3u8, 1, 4, 1, 5, 9, 2, 6, 5, 3, 5, 8, 9, 7, 9, 3];
    assert_eq!(b.enqueue(peer(), payload.len(), |buf| {
        buf.copy_from_slice(&payload);
        Ok(())
    }), Ok(()));
    let r = b.dequeue(|e, p| Ok((e, p.to_vec())));
    assert_eq!(r, Ok((peer(), payload.to_vec())));
}

#[test]
fn unitary_keeps_order_of_packets() {
    let mut b = unitary16();
    let first = Endpoint::new(Address::Ipv4(10, 0, 0, 7), 1);
    let second = Endpoint::new(Address::Ipv4(10, 0, 0, 8), 2);
    assert_eq!(b.enqueue(first, 1, |buf| { buf[0] = 1; Ok(()) }), Ok(()));
    assert_eq!(b.dequeue(|e, p| Ok((e, p.to_vec()))), Ok((first, vec![1])));
    assert_eq!(b.enqueue(second, 1, |buf| { buf[0] = 2; Ok(()) }), Ok(()));
    assert_eq!(b.dequeue(|e, p| Ok((e, p.to_vec()))), Ok((second, vec![2])));
}

#[test]
fn send_slice_then_dispatch() {
    let mut s = wildcard_socket();
    assert_eq!(s.send_slice(peer(), &[0xAA, 0xBB]), Ok(()));
    let r = s.dispatch(|src, dst, repr| {
        Ok((src, dst, repr.src_port, repr.dst_port, repr.payload.to_vec()))
    });
    assert_eq!(
        r,
        Ok((Address::Ipv4(0, 0, 0, 0), Address::Ipv4(10, 0, 0, 2), 6969, 53, vec![0xAA, 0xBB]))
    );
    let r: Result<(), Error> = s.dispatch(|_, _, _| Ok(()));
    assert_eq!(r, Err(Error::Exhausted));
}

#[test]
fn dispatch_returns_callback_error() {
    let mut s = wildcard_socket();
    assert_eq!(s.send_slice(peer(), &[1]), Ok(()));
    let r: Result<(), Error> = s.dispatch(|_, _, _| Err(Error::Unrecognized));
    assert_eq!(r, Err(Error::Unrecognized));
    let r: Result<(), Error> = s.dispatch(|_, _, _| Ok(()));
    assert_eq!(r, Err(Error::Exhausted));
}

#[test]
fn collect_then_recv_slice() {
    let mut s = wildcard_socket();
    let payload = [0x01u8, 0x02, 0x03];
    let repr = UdpRepr { src_port: 1234, dst_port: 6969, payload: &payload };
    assert_eq!(s.collect(Address::Ipv4(10, 0, 0, 5), Address::Ipv4(10, 0, 0, 1), &repr), Ok(()));
    let mut out = [0u8; 4];
    assert_eq!(
        s.recv_slice(&mut out),
        Ok((3, Endpoint::new(Address::Ipv4(10, 0, 0, 5), 1234)))
    );
    assert_eq!(&out[..3], &[1, 2, 3]);
    assert_eq!(out[3], 0);
}

#[test]
fn collect_rejects_other_port() {
    let mut s = wildcard_socket();
    let repr = UdpRepr { src_port: 1, dst_port: 6970, payload: &[] };
    assert_eq!(
        s.collect(Address::Ipv4(10, 0, 0, 5), Address::Ipv4(10, 0, 0, 1), &repr),
        Err(Error::Rejected)
    );
    let mut out = [0u8; 4];
    assert_eq!(s.recv_slice(&mut out), Err(Error::Exhausted));
}

#[test]
fn collect_rejects_other_address_on_concrete_bind() {
    let mut s = socket_at(Endpoint::new(Address::Ipv4(10, 0, 0, 1), 6969));
    let repr = UdpRepr { src_port: 1, dst_port: 6969, payload: &[7] };
    assert_eq!(
        s.collect(Address::Ipv4(10, 0, 0, 5), Address::Ipv4(10, 0, 0, 2), &repr),
        Err(Error::Rejected)
    );
    assert_eq!(
        s.collect(Address::Ipv4(10, 0, 0, 5), Address::Ipv4(10, 0, 0, 1), &repr),
        Ok(())
    );
}

#[test]
fn collect_on_wildcard_accepts_any_address() {
    let mut s = wildcard_socket();
    let repr = UdpRepr { src_port: 9, dst_port: 6969, payload: &[1, 2] };
    assert_eq!(
        s.collect(Address::Ipv4(10, 0, 0, 5), Address::Ipv4(192, 168, 1, 1), &repr),
        Ok(())
    );
}

#[test]
fn collect_into_full_buffer_is_exhausted() {
    let mut s = wildcard_socket();
    let repr = UdpRepr { src_port: 9, dst_port: 6969, payload: &[1] };
    assert_eq!(s.collect(Address::Ipv4(10, 0, 0, 5), Address::Ipv4(10, 0, 0, 1), &repr), Ok(()));
    assert_eq!(
        s.collect(Address::Ipv4(10, 0, 0, 5), Address::Ipv4(10, 0, 0, 1), &repr),
        Err(Error::Exhausted)
    );
}

#[test]
fn send_rolls_back_on_callback_error() {
    let mut s = wildcard_socket();
    let r: Result<(), Error> = s.send(peer(), 4, |_| Err(Error::Malformed));
    assert_eq!(r, Err(Error::Malformed));
    let r: Result<(), Error> = s.dispatch(|_, _, _| Ok(()));
    assert_eq!(r, Err(Error::Exhausted));
}

#[test]
fn send_writes_in_place() {
    let mut s = wildcard_socket();
    assert_eq!(s.send(peer(), 3, |buf| {
        buf.copy_from_slice(&[4, 5, 6]);
        Ok(3)
    }), Ok(3));
    let r = s.dispatch(|_, dst, repr| Ok((dst, repr.payload.to_vec())));
    assert_eq!(r, Ok((Address::Ipv4(10, 0, 0, 2), vec![4, 5, 6])));
}

#[test]
fn recv_slice_too_small_loses_packet() {
    let mut s = wildcard_socket();
    let payload = [1u8, 2, 3, 4, 5];
    let repr = UdpRepr { src_port: 1234, dst_port: 6969, payload: &payload };
    assert_eq!(s.collect(Address::Ipv4(10, 0, 0, 5), Address::Ipv4(10, 0, 0, 1), &repr), Ok(()));
    let mut out = [0u8; 3];
    assert_eq!(s.recv_slice(&mut out), Err(Error::Exhausted));
    assert_eq!(out, [0, 0, 0]);
    let mut big = [0u8; 8];
    assert_eq!(s.recv_slice(&mut big), Err(Error::Exhausted));
}

#[test]
fn recv_hands_out_packet() {
    let mut s = wildcard_socket();
    let repr = UdpRepr { src_port: 77, dst_port: 6969, payload: &[8, 9] };
    assert_eq!(s.collect(Address::Ipv4(10, 0, 0, 5), Address::Ipv4(10, 0, 0, 1), &repr), Ok(()));
    let r = s.recv(|e, p| Ok((e, p.to_vec())));
    assert_eq!(r, Ok((Endpoint::new(Address::Ipv4(10, 0, 0, 5), 77), vec![8, 9])));
    let r: Result<(), Error> = s.recv(|_, _| Ok(()));
    assert_eq!(r, Err(Error::Exhausted));
}

#[test]
fn send_slice_oversize_is_exhausted() {
    let mut s = wildcard_socket();
    let data = [0x11u8; 17];
    assert_eq!(s.send_slice(peer(), &data), Err(Error::Exhausted));
    let r: Result<(), Error> = s.dispatch(|_, _, _| Ok(()));
    assert_eq!(r, Err(Error::Exhausted));
    assert_eq!(s.send_slice(peer(), &data[..16]), Ok(()));
}

#[test]
fn send_only_socket_with_null_rx() {
    let mut s = Socket::new(Endpoint::new(Address::Ipv4(0, 0, 0, 0), 6969), NullBuffer::new(), unitary16());
    let repr = UdpRepr { src_port: 1, dst_port: 6969, payload: &[1] };
    assert_eq!(
        s.collect(Address::Ipv4(10, 0, 0, 5), Address::Ipv4(10, 0, 0, 1), &repr),
        Err(Error::Exhausted)
    );
    assert_eq!(s.send_slice(peer(), &[1]), Ok(()));
}

#[test]
fn unspecified_address() {
    assert!(Address::Ipv4(0, 0, 0, 0).is_unspecified());
    assert!(!Address::Ipv4(0, 0, 0, 1).is_unspecified());
    assert!(!Address::Invalid.is_unspecified());
    assert_eq!(Endpoint::invalid(), Endpoint::new(Address::Invalid, 0));
    assert_eq!(Endpoint::default(), Endpoint::invalid());
}
