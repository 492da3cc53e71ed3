//! The interface between the USB protocol stack and a peripheral driver.

use vstd::prelude::*;

use crate::hal_usb::SetupPacket;
use vstd::math::min;

verus! {

/// A received USB packet, still held by the peripheral.
pub trait UsbPacket: Sized {
    /// The bytes of the packet.
    spec fn spec_data(&self) -> Seq<u8>;

    /// The index of the endpoint the packet arrived on.
    spec fn spec_endpoint(&self) -> usize;

    /// Returns the index of the endpoint the packet was received on.
    fn endpoint_index(&self) -> (r: usize)
        ensures
            r == self.spec_endpoint(),
    ;

    /// Returns the length of the packet data in bytes.
    fn len(&self) -> (r: usize)
        ensures
            r == self.spec_data().len(),
    ;

    /// Copies the packet data into the start of `dest`, which must hold it,
    /// and returns the copied part.
    fn copy_to(self, dest: &mut [u8]) -> (r: &[u8])
        requires
            self.spec_data().len() <= old(dest)@.len(),
        ensures
            r@ == self.spec_data().take(min(self.spec_data().len() as int, old(dest)@.len() as int)),
            final(dest)@ == r@ + old(dest)@.skip(r@.len() as int),
    ;

    /// Copies the packet data into the start of `dest`, as much as fits, and
    /// returns the copied part. The destination need not be word-aligned.
    fn copy_to_unaligned(self, dest: &mut [u8]) -> (r: &[u8])
        ensures
            r@ == self.spec_data().take(min(self.spec_data().len() as int, old(dest)@.len() as int)),
            final(dest)@ == r@ + old(dest)@.skip(r@.len() as int),
    ;

    /// Returns `true` if the packet is empty (zero-length).
    fn is_empty(&self) -> (r: bool)
        ensures
            r == (self.spec_data().len() == 0),
    {
        self.len() == 0
    }
}

/// Events that a USB driver reports.
pub enum UsbEvent<TPacket: UsbPacket> {
    /// A SETUP packet has been received from the host.
    SetupPacket {
        /// The decoded SETUP packet.
        pkt: SetupPacket,
        /// The endpoint index (always 0 for standard SETUP packets).
        endpoint: u8,
    },
    /// An OUT packet has been received from the host.
    DataOutPacket(TPacket),
    /// A packet has been sent by the peripheral and acknowledged by the host.
    PacketSent {
        /// The index of the endpoint that sent the packet.
        endpoint: u32,
    },
    /// VBus presence detected.
    VBus,
    /// VBus presence lost.
    VBusLost,
    /// USB link is down.
    LinkDown,
    /// USB link is up.
    LinkUp,
    /// USB bus reset received.
    UsbReset,
    /// USB bus suspend received.
    Suspend,
    /// USB bus resume received.
    Resume,
    /// Unexpected buffer ID error.
    ErrorUnexpectedBufId,
}

/// Configuration of an IN endpoint of the peripheral.
#[derive(Clone, Copy, PartialEq, Eq, Structural, Debug)]
pub struct EpIn {
    /// The endpoint number.
    pub num: u8,
    /// How many packet buffers the endpoint may hold queued.
    pub buf_pool_size: u8,
}

/// Configuration of an OUT endpoint of the peripheral.
#[derive(Clone, Copy, PartialEq, Eq, Structural, Debug)]
pub struct EpOut {
    /// The endpoint number.
    pub num: u8,
    /// Whether the endpoint answers NAK until it is given a buffer.
    pub set_nak: bool,
}

/// A call the stack made on a driver, with what the driver answered.
pub enum DriverCall {
    /// `transfer_in(endpoint, data, zlp)` that took the given number of bytes.
    TransferIn(u8, Seq<u8>, bool, usize),
    /// `transfer_in_unaligned(endpoint, data, zlp)` that took the given number of bytes.
    TransferInUnaligned(u8, Seq<u8>, bool, usize),
    /// `stall(endpoint, stalled)`.
    Stall(u8, bool),
    /// `is_stalled(endpoint)` with its answer.
    IsStalled(u8, bool),
    /// `set_address(address)`.
    SetAddress(u8),
}

/// A driver for a USB peripheral controller.
///
/// `calls` is the record of the calls the driver has received. A driver
/// verified with the stack keeps it; every method below states how it grows.
pub trait UsbDriver {
    /// The type of packet returned by the driver.
    type Packet<'a>: UsbPacket where Self: 'a;

    /// The calls received so far, oldest first.
    open spec fn calls(&self) -> Seq<DriverCall> {
        Seq::empty()
    }

    /// The largest packet the hardware handles (typically 64 bytes).
    fn max_packet_size(&self) -> usize;

    /// Queues `data` for the IN endpoint `endpoint_idx` and returns how many
    /// bytes were taken: a multiple of the maximum packet size, or all of them.
    /// With `zlp`, a zero-length packet follows data of a multiple of that size.
    fn transfer_in(&mut self, endpoint_idx: u8, data: &[u8], zlp: bool) -> (r: usize)
        ensures
            r <= data@.len(),
            final(self).calls() == old(self).calls().push(DriverCall::TransferIn(endpoint_idx, data@, zlp, r)),
    ;

    /// As `transfer_in`, for data that need not be word-aligned.
    fn transfer_in_unaligned(&mut self, endpoint_idx: u8, data: &[u8], zlp: bool) -> (r: usize)
        ensures
            r <= data@.len(),
            final(self).calls() == old(self).calls().push(
                DriverCall::TransferInUnaligned(endpoint_idx, data@, zlp, r),
            ),
    ;

    /// Stalls or unstalls an endpoint.
    fn stall(&mut self, endpoint_num: u8, stalled: bool)
        ensures
            final(self).calls() == old(self).calls().push(DriverCall::Stall(endpoint_num, stalled)),
    ;

    /// Returns whether the specified endpoint is currently stalled.
    fn is_stalled(&mut self, endpoint_num: u8) -> (r: bool)
        ensures
            final(self).calls() == old(self).calls().push(DriverCall::IsStalled(endpoint_num, r)),
    ;

    /// Sets the address the peripheral responds to.
    fn set_address(&mut self, address: u8)
        ensures
            final(self).calls() == old(self).calls().push(DriverCall::SetAddress(address)),
    ;

    /// Polls the driver for a USB event; this is no call of the record.
    fn poll(&mut self) -> (r: Option<UsbEvent<Self::Packet<'_>>>)
        ensures
            final(self).calls() == old(self).calls(),
    ;
}

} // verus!
