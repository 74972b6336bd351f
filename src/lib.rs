//! A datagram socket over allocation-free packet buffers.
//!
//! Application code pushes outbound packets into a socket's transmit buffer
//! with `send` / `send_slice`; the network stack drains it with `dispatch`.
//! The stack pushes inbound datagrams that match the socket's binding into the
//! receive buffer with `collect`; the application drains it with `recv` /
//! `recv_slice`.
pub mod buffer;
pub mod error;
pub mod socket;
pub mod wire;

pub use buffer::{Buffer, NullBuffer, UnitaryBuffer};
pub use error::Error;
pub use socket::Socket;
pub use wire::{Address, Endpoint, UdpRepr};
