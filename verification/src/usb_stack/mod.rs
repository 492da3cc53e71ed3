//! Generic USB protocol stack: Endpoint 0 request handling and multi-packet
//! transfer accumulation.

use vstd::prelude::*;

use crate::descriptor::{StringDescriptorRef, StringHandle};
use crate::driver::{DriverCall, UsbDriver, UsbEvent, UsbPacket};
use crate::hal_usb::{DescriptorInfo, DescriptorType, Request, SetupPacket};
use crate::status::Error;
use vstd::math::min;

pub mod testing;

verus! {

/// Provides the descriptors of a device to the stack.
pub trait DescriptorSource {
    /// The device descriptor.
    spec fn spec_device_desc(&self) -> Seq<u8>;

    /// The configuration descriptor (with interfaces and endpoints).
    spec fn spec_config_desc(&self) -> Seq<u8>;

    /// String descriptor 0 (supported languages).
    spec fn spec_string_desc_0(&self) -> Seq<u8>;

    /// The device status bytes.
    spec fn spec_device_status(&self) -> Seq<u8>;

    /// The string descriptor with a given handle and language, if any.
    spec fn spec_string(&self, handle: u8, lang: u16) -> Option<Seq<u8>>;

    /// Device descriptor bytes.
    fn device_desc_bytes(&self) -> (r: &[u8])
        ensures
            r@ == self.spec_device_desc(),
    ;

    /// Configuration descriptor bytes (including interfaces and endpoints).
    fn config_desc_bytes(&self) -> (r: &[u8])
        ensures
            r@ == self.spec_config_desc(),
    ;

    /// String descriptor 0 bytes (supported languages).
    fn string_desc_0_bytes(&self) -> (r: &[u8])
        ensures
            r@ == self.spec_string_desc_0(),
    ;

    /// Returns a string descriptor by handle and language ID.
    fn get_string(&self, handle: StringHandle, lang: u16) -> (r: Option<StringDescriptorRef<'_>>)
        ensures
            r is None <==> self.spec_string(handle.0, lang) is None,
            r matches Some(d) ==> self.spec_string(handle.0, lang) == Some(d.0@),
    ;

    /// Returns the device status bytes (2 bytes, usually [0, 0]).
    fn get_device_status(&self) -> (r: &[u8])
        ensures
            r@ == self.spec_device_status(),
    ;
}

/// The first descriptor registered under `handle`, if any.
pub open spec fn spec_lookup_string(s: Seq<(u8, Vec<u8>)>, handle: u8) -> Option<Seq<u8>>
    decreases s.len(),
{
    if s.len() == 0 {
        None
    } else if s[0].0 == handle {
        Some(s[0].1@)
    } else {
        spec_lookup_string(s.drop_first(), handle)
    }
}

/// The descriptors of a device, held as bytes: the device, configuration
/// and language descriptors, the device status, and the string descriptors
/// by handle (the first entry of a handle counts; every language gets the
/// same strings).
pub struct DescriptorTable {
    pub device_desc: Vec<u8>,
    pub config_desc: Vec<u8>,
    pub string_desc_0: Vec<u8>,
    pub device_status: Vec<u8>,
    pub strings: Vec<(u8, Vec<u8>)>,
}

impl DescriptorSource for DescriptorTable {
    open spec fn spec_device_desc(&self) -> Seq<u8> {
        self.device_desc@
    }

    open spec fn spec_config_desc(&self) -> Seq<u8> {
        self.config_desc@
    }

    open spec fn spec_string_desc_0(&self) -> Seq<u8> {
        self.string_desc_0@
    }

    open spec fn spec_device_status(&self) -> Seq<u8> {
        self.device_status@
    }

    open spec fn spec_string(&self, handle: u8, lang: u16) -> Option<Seq<u8>> {
        spec_lookup_string(self.strings@, handle)
    }

    fn device_desc_bytes(&self) -> (r: &[u8]) {
        self.device_desc.as_slice()
    }

    fn config_desc_bytes(&self) -> (r: &[u8]) {
        self.config_desc.as_slice()
    }

    fn string_desc_0_bytes(&self) -> (r: &[u8]) {
        self.string_desc_0.as_slice()
    }

    fn get_string(&self, handle: StringHandle, lang: u16) -> (r: Option<StringDescriptorRef<'_>>) {
        let mut i: usize = 0;
        assert(self.strings@.skip(0) =~= self.strings@);
        while i < self.strings.len()
            invariant
                i <= self.strings@.len(),
                spec_lookup_string(self.strings@, handle.0) == spec_lookup_string(self.strings@.skip(i as int), handle.0),
            decreases self.strings@.len() - i,
        {
            let entry = &self.strings[i];
            assert(self.strings@.skip(i as int).drop_first() =~= self.strings@.skip(i + 1));
            if entry.0 == handle.0 {
                return Some(StringDescriptorRef(entry.1.as_slice()));
            }
            i += 1;
        }
        None
    }

    fn get_device_status(&self) -> (r: &[u8]) {
        self.device_status.as_slice()
    }
}

/// A USB class: it claims the events meant for it and hands the others back.
pub trait UsbClass {
    /// The class's own consistency condition, kept by every event.
    spec fn wf(&self) -> bool;

    /// Handles an event, or returns it unhandled.
    fn handle_event<'a, P: UsbPacket>(&'a mut self, event: UsbEvent<P>) -> (r: Result<UsbAction<'a>, UsbEvent<P>>)
        requires
            old(self).wf(),
        ensures
            final(self).wf(),
    ;
}

/// Indicates the result of running a USB action.
#[derive(Copy, Clone, PartialEq, Eq, Structural, Debug)]
pub enum UsbActionRun {
    /// No operation was performed.
    NoOp,
    /// The action has more data to transfer.
    HasMoreData,
    /// The action is complete.
    Done,
}

/// Actions to be performed on a USB driver.
#[derive(Clone, Copy)]
pub enum UsbAction<'a> {
    /// No action.
    NoAction,
    /// Perform an IN transfer on the specified endpoint.
    TransferIn {
        /// The endpoint index.
        endpoint: u8,
        /// The data to transfer.
        data: &'a [u8],
        /// If true, send a zero-length packet (ZLP) if the data length
        /// is a multiple of the maximum packet size.
        zlp: bool,
    },
    /// Perform an IN transfer on the specified endpoint using unaligned data.
    TransferInUnaligned {
        /// The endpoint index.
        endpoint: u8,
        /// The data to transfer.
        data: &'a [u8],
        /// If true, send a zero-length packet (ZLP) if the data length
        /// is a multiple of the maximum packet size.
        zlp: bool,
    },
    /// Stall both IN and OUT directions on the specified endpoint.
    StallInAndOut {
        /// The endpoint index.
        endpoint: u8,
    },
    /// Set the device address.
    SetAddress {
        /// The new device address.
        new_address: u8,
    },
    /// Get the status of an endpoint.
    GetEndpointStatus {
        /// The endpoint index.
        endpoint: u8,
    },
    /// Set the stall status of an endpoint.
    SetEndpointStatus {
        /// The endpoint index.
        endpoint: u8,
        /// Whether to stall or unstall the endpoint.
        stall: bool,
    },
}

/// The meaning of an action: what it does, with its data as bytes.
pub enum ActionView {
    NoAction,
    TransferIn(u8, Seq<u8>, bool),
    TransferInUnaligned(u8, Seq<u8>, bool),
    StallInAndOut(u8),
    SetAddress(u8),
    GetEndpointStatus(u8),
    SetEndpointStatus(u8, bool),
}

impl<'a> View for UsbAction<'a> {
    type V = ActionView;

    open spec fn view(&self) -> ActionView {
        match *self {
            UsbAction::NoAction => ActionView::NoAction,
            UsbAction::TransferIn { endpoint, data, zlp } => ActionView::TransferIn(endpoint, data@, zlp),
            UsbAction::TransferInUnaligned { endpoint, data, zlp } => ActionView::TransferInUnaligned(
                endpoint,
                data@,
                zlp,
            ),
            UsbAction::StallInAndOut { endpoint } => ActionView::StallInAndOut(endpoint),
            UsbAction::SetAddress { new_address } => ActionView::SetAddress(new_address),
            UsbAction::GetEndpointStatus { endpoint } => ActionView::GetEndpointStatus(endpoint),
            UsbAction::SetEndpointStatus { endpoint, stall } => ActionView::SetEndpointStatus(
                endpoint,
                stall,
            ),
        }
    }
}

/// The control IN transfer that answers a request for `data`, or a stall when
/// the host asked for fewer bytes than `data` holds. A zero-length packet
/// ends a reply that is empty or shorter than requested.
pub open spec fn spec_control_transfer_in_or_stall(endpoint: u8, length: u16, data: Seq<u8>) -> ActionView {
    if data.len() > length {
        ActionView::StallInAndOut(endpoint)
    } else {
        ActionView::TransferIn(endpoint, data, data.len() == 0 || data.len() < length)
    }
}

/// The two status bytes of an endpoint: 1, 0 when it is halted, else 0, 0.
pub open spec fn endpoint_status_bytes(stalled: bool) -> Seq<u8> {
    if stalled {
        seq![1u8, 0u8]
    } else {
        seq![0u8, 0u8]
    }
}

/// Running action `a` on a driver that had received `before` left it with
/// `after`, returned `r` and left action `a2`:
/// - nothing: no call, `NoOp`;
/// - a transfer: one transfer call with the action's endpoint, data and
///   zlp; where the driver took fewer bytes than there are (for an aligned
///   transfer, a multiple of four), the rest stays pending (`HasMoreData`),
///   else the action is done;
/// - a stall: the IN and the OUT direction of the endpoint are stalled;
/// - an address: `set_address`;
/// - an endpoint status request: the endpoint's stall state is asked and
///   its two status bytes are sent on endpoint 0;
/// - an endpoint status change: the endpoint is stalled or unstalled and a
///   zero-length status stage is sent on endpoint 0.
/// Every action but the empty one is then done.
pub open spec fn spec_run(
    a: ActionView,
    before: Seq<DriverCall>,
    after: Seq<DriverCall>,
    r: UsbActionRun,
    a2: ActionView,
) -> bool {
    let n0 = before.len() as int;
    &&& after.len() >= n0
    &&& after.subrange(0, n0) == before
    &&& match a {
        ActionView::NoAction => after.len() == n0 && r == UsbActionRun::NoOp && a2 is NoAction,
        ActionView::TransferIn(e, d, z) => {
            &&& after.len() == n0 + 1
            &&& after[n0] matches DriverCall::TransferIn(e2, d2, z2, n) && e2 == e && d2 == d && z2 == z
                && if n < d.len() && n % 4 == 0 {
                r == UsbActionRun::HasMoreData && a2 == ActionView::TransferIn(e, d.skip(n as int), z)
            } else {
                r == UsbActionRun::Done && a2 is NoAction
            }
        },
        ActionView::TransferInUnaligned(e, d, z) => {
            &&& after.len() == n0 + 1
            &&& after[n0] matches DriverCall::TransferInUnaligned(e2, d2, z2, n) && e2 == e && d2 == d && z2
                == z && if n < d.len() {
                r == UsbActionRun::HasMoreData && a2 == ActionView::TransferInUnaligned(e, d.skip(n as int), z)
            } else {
                r == UsbActionRun::Done && a2 is NoAction
            }
        },
        ActionView::StallInAndOut(e) => {
            &&& after.len() == n0 + 2
            &&& after[n0] == DriverCall::Stall(e & 0x7f, true)
            &&& after[n0 + 1] == DriverCall::Stall(e | 0x80, true)
            &&& r == UsbActionRun::Done && a2 is NoAction
        },
        ActionView::SetAddress(addr) => {
            &&& after.len() == n0 + 1
            &&& after[n0] == DriverCall::SetAddress(addr)
            &&& r == UsbActionRun::Done && a2 is NoAction
        },
        ActionView::GetEndpointStatus(e) => {
            &&& after.len() == n0 + 2
            &&& match (after[n0], after[n0 + 1]) {
                (DriverCall::IsStalled(e2, stalled), DriverCall::TransferIn(e3, d3, z3, _n)) => e2 == e && e3 == 0
                    && d3 == endpoint_status_bytes(stalled) && z3,
                _ => false,
            }
            &&& r == UsbActionRun::Done && a2 is NoAction
        },
        ActionView::SetEndpointStatus(e, stall) => {
            &&& after.len() == n0 + 2
            &&& after[n0] == DriverCall::Stall(e, stall)
            &&& after[n0 + 1] matches DriverCall::TransferIn(e3, d3, z3, _n) && e3 == 0 && d3 == Seq::<u8>::empty() && z3
            &&& r == UsbActionRun::Done && a2 is NoAction
        },
    }
}

impl<'a> UsbAction<'a> {
    /// True for the empty action.
    pub fn is_none(&self) -> (r: bool)
        ensures
            r <==> self@ is NoAction,
    {
        match self {
            UsbAction::NoAction => true,
            _ => false,
        }
    }

    /// A TransferIn action for a control transfer, or StallInAndOut if the
    /// requested length is too small.
    pub fn control_transfer_in_or_stall(endpoint: u8, pkt: &SetupPacket, data: &'a [u8]) -> (r: Self)
        ensures
            r@ == spec_control_transfer_in_or_stall(endpoint, pkt.spec_length(), data@),
    {
        let length: usize = pkt.length() as usize;
        if data.len() > length {
            UsbAction::StallInAndOut { endpoint }
        } else {
            UsbAction::TransferIn { endpoint, data, zlp: data.is_empty() || data.len() < length }
        }
    }

    /// Replaces this action by `new_action` unless that one is empty.
    pub fn merge(&mut self, new_action: UsbAction<'a>)
        ensures
            new_action@ is NoAction ==> final(self)@ == old(self)@,
            !(new_action@ is NoAction) ==> final(self)@ == new_action@,
    {
        match new_action {
            UsbAction::NoAction => {},
            _ => *self = new_action,
        }
    }

    /// Executes the action on the driver. A transfer that the driver took only
    /// in part stays pending with the rest of its data; any other action is
    /// done and becomes the empty action.
    pub fn run<TDriver: UsbDriver>(&mut self, driver: &mut TDriver) -> (r: UsbActionRun)
        ensures
            spec_run(old(self)@, old(driver).calls(), final(driver).calls(), r, final(self)@),
    {
        match *self {
            UsbAction::NoAction => {
                assert(driver.calls().subrange(0, old(driver).calls().len() as int) =~= old(driver).calls());
                return UsbActionRun::NoOp;
            },
            UsbAction::TransferIn { endpoint, data, zlp } => {
                let bytes_transferred = driver.transfer_in(endpoint, data, zlp);
                assert((bytes_transferred & 3usize) == 0 <==> bytes_transferred % 4 == 0) by (bit_vector);
                if bytes_transferred < data.len() && (bytes_transferred & 3) == 0 {
                    let rest = vstd::slice::slice_subrange(data, bytes_transferred, data.len());
                    assert(rest@ =~= data@.skip(bytes_transferred as int));
                    *self = UsbAction::TransferIn { endpoint, data: rest, zlp };
                    assert(driver.calls().subrange(0, old(driver).calls().len() as int) =~= old(driver).calls());
                    return UsbActionRun::HasMoreData;
                }
            },
            UsbAction::TransferInUnaligned { endpoint, data, zlp } => {
                let bytes_transferred = driver.transfer_in_unaligned(endpoint, data, zlp);
                if bytes_transferred < data.len() {
                    let rest = vstd::slice::slice_subrange(data, bytes_transferred, data.len());
                    assert(rest@ =~= data@.skip(bytes_transferred as int));
                    *self = UsbAction::TransferInUnaligned { endpoint, data: rest, zlp };
                    assert(driver.calls().subrange(0, old(driver).calls().len() as int) =~= old(driver).calls());
                    return UsbActionRun::HasMoreData;
                }
            },
            UsbAction::SetAddress { new_address } => driver.set_address(new_address),
            UsbAction::StallInAndOut { endpoint } => {
                driver.stall(endpoint & 0x7f, true);
                driver.stall(endpoint | 0x80, true);
            },
            UsbAction::GetEndpointStatus { endpoint } => {
                let halted: [u8; 2] = [1, 0];
                let clear: [u8; 2] = [0, 0];
                assert(halted@ =~= endpoint_status_bytes(true));
                assert(clear@ =~= endpoint_status_bytes(false));
                let stalled = driver.is_stalled(endpoint);
                let data: &[u8] = if stalled {
                    &halted
                } else {
                    &clear
                };
                let _ = driver.transfer_in(0, data, true);
            },
            UsbAction::SetEndpointStatus { endpoint, stall } => {
                driver.stall(endpoint, stall);
                let empty: [u8; 0] = [];
                assert(empty@ =~= Seq::<u8>::empty());
                let _ = driver.transfer_in(0, &empty, true);
            },
        }
        *self = UsbAction::NoAction;
        assert(driver.calls().subrange(0, old(driver).calls().len() as int) =~= old(driver).calls());
        UsbActionRun::Done
    }
}


/// The descriptor bytes a GET_DESCRIPTOR request asks for, if the source has
/// them: device, configuration and language table at index 0, or a string.
pub open spec fn spec_descriptor_response<D: DescriptorSource>(src: &D, pkt: SetupPacket) -> Option<Seq<u8>> {
    let index = pkt.spec_value() % 256;
    let ty = pkt.spec_value() / 256;
    if ty == 1 && index == 0 {
        Some(src.spec_device_desc())
    } else if ty == 2 && index == 0 {
        Some(src.spec_config_desc())
    } else if ty == 3 && index == 0 {
        Some(src.spec_string_desc_0())
    } else if ty == 3 {
        src.spec_string(index as u8, pkt.spec_index())
    } else {
        None
    }
}

/// The reply of the default control endpoint to a SETUP packet.
pub open spec fn spec_setup_action<D: DescriptorSource>(src: &D, pkt: SetupPacket) -> ActionView {
    let req = pkt.spec_request_raw();
    let len = pkt.spec_length();
    if req == 0x0680 {
        match spec_descriptor_response(src, pkt) {
            Some(bytes) => spec_control_transfer_in_or_stall(
                0,
                len,
                bytes.take(min(bytes.len() as int, len as int)),
            ),
            None => ActionView::StallInAndOut(0),
        }
    } else if req == 0x0080 {
        ActionView::TransferIn(0, src.spec_device_status(), true)
    } else if req == 0x0082 {
        ActionView::GetEndpointStatus(pkt.spec_index() as u8)
    } else if req == 0x0302 {
        ActionView::SetEndpointStatus(pkt.spec_index() as u8, true)
    } else if req == 0x0102 {
        ActionView::SetEndpointStatus(pkt.spec_index() as u8, false)
    } else if req == 0x0500 {
        ActionView::TransferIn(0, seq![], true)
    } else if req == 0x0900 {
        if pkt.spec_value() == 1 {
            ActionView::TransferIn(0, seq![], true)
        } else {
            ActionView::StallInAndOut(0)
        }
    } else {
        ActionView::StallInAndOut(0)
    }
}

/// A simple implementation of USB Endpoint 0 (control endpoint).
pub struct SimpleEp0 {
    new_address: Option<u8>,
}

impl SimpleEp0 {
    /// The address to switch to once the pending status stage is sent.
    pub closed spec fn pending_address(&self) -> Option<u8> {
        self.new_address
    }

    /// Creates a new `SimpleEp0` handler with no pending address.
    pub fn new() -> (r: Self)
        ensures
            r.pending_address() is None,
    {
        SimpleEp0 { new_address: None }
    }

    /// Processes a driver event: SETUP packets and sent packets on endpoint 0
    /// are handled, every other event gives the empty action.
    pub fn handle_event<'a, P: UsbPacket, D: DescriptorSource>(
        &mut self,
        ev: UsbEvent<P>,
        descriptor_source: &'a D,
    ) -> (r: UsbAction<'a>)
        ensures
            match ev {
                UsbEvent::SetupPacket { pkt, endpoint } => if endpoint == 0 {
                    &&& r@ == spec_setup_action(descriptor_source, pkt)
                    &&& final(self).pending_address() == (if pkt.spec_request_raw() == 0x0500 {
                        Some(pkt.spec_value() as u8)
                    } else {
                        old(self).pending_address()
                    })
                } else {
                    r@ is NoAction && final(self).pending_address() == old(self).pending_address()
                },
                UsbEvent::PacketSent { endpoint } => if endpoint == 0 {
                    &&& final(self).pending_address() is None
                    &&& match old(self).pending_address() {
                        Some(a) => r@ == ActionView::SetAddress(a),
                        None => r@ is NoAction,
                    }
                } else {
                    r@ is NoAction && final(self).pending_address() == old(self).pending_address()
                },
                _ => r@ is NoAction && final(self).pending_address() == old(self).pending_address(),
            },
            final(self).pending_address() == spec_ep0_next(old(self).pending_address(), spec_ep0_input(ev)),
    {
        match ev {
            UsbEvent::SetupPacket { endpoint, pkt } => {
                if endpoint == 0 {
                    return self.handle_setup(pkt, descriptor_source);
                }
            },
            UsbEvent::PacketSent { endpoint } => {
                if endpoint == 0 {
                    return self.handle_packet_sent();
                }
            },
            _ => {},
        }
        UsbAction::NoAction
    }

    /// Answers a SETUP packet; SET_ADDRESS records the address to switch to.
    fn handle_setup<'a, D: DescriptorSource>(&mut self, setup_pkt: SetupPacket, descriptor_source: &'a D) -> (r:
        UsbAction<'a>)
        ensures
            r@ == spec_setup_action(descriptor_source, setup_pkt),
            final(self).pending_address() == (if setup_pkt.spec_request_raw() == 0x0500 {
                Some(setup_pkt.spec_value() as u8)
            } else {
                old(self).pending_address()
            }),
    {
        let req = setup_pkt.request();
        proof {
            Request::lemma_raw_injective(req, req);
        }
        let get_descriptor = Request::DEVICE_GET_DESCRIPTOR();
        let get_status = Request::DEVICE_GET_STATUS();
        let ep_get_status = Request::ENDPOINT_GET_STATUS();
        let ep_set_feature = Request::ENDPOINT_SET_FEATURE();
        let ep_clear_feature = Request::ENDPOINT_CLEAR_FEATURE();
        let set_address = Request::DEVICE_SET_ADDRESS();
        let set_configuration = Request::DEVICE_SET_CONFIGURATION();
        proof {
            Request::lemma_raw_injective(req, get_descriptor);
            Request::lemma_raw_injective(req, get_status);
            Request::lemma_raw_injective(req, ep_get_status);
            Request::lemma_raw_injective(req, ep_set_feature);
            Request::lemma_raw_injective(req, ep_clear_feature);
            Request::lemma_raw_injective(req, set_address);
            Request::lemma_raw_injective(req, set_configuration);
        }
        if req == get_descriptor {
            let descriptor = DescriptorInfo::from(&setup_pkt);
            let device = DescriptorType::DEVICE();
            let configuration = DescriptorType::CONFIGURATION();
            let string = DescriptorType::STRING();
            proof {
                DescriptorType::lemma_raw_injective(descriptor.ty, device);
                DescriptorType::lemma_raw_injective(descriptor.ty, configuration);
                DescriptorType::lemma_raw_injective(descriptor.ty, string);
            }
            let response: Option<&'a [u8]> = if descriptor.ty == device && descriptor.index == 0 {
                Some(descriptor_source.device_desc_bytes())
            } else if descriptor.ty == configuration && descriptor.index == 0 {
                Some(descriptor_source.config_desc_bytes())
            } else if descriptor.ty == string && descriptor.index == 0 {
                Some(descriptor_source.string_desc_0_bytes())
            } else if descriptor.ty == string {
                match descriptor_source.get_string(StringHandle(descriptor.index), setup_pkt.index()) {
                    Some(desc) => Some(desc.as_bytes()),
                    None => None,
                }
            } else {
                None
            };
            match response {
                Some(bytes) => {
                    let length: usize = setup_pkt.length() as usize;
                    let truncated: &'a [u8] = if bytes.len() > length {
                        vstd::slice::slice_subrange(bytes, 0, length)
                    } else {
                        bytes
                    };
                    assert(truncated@ =~= bytes@.take(min(bytes@.len() as int, length as int)));
                    UsbAction::control_transfer_in_or_stall(0, &setup_pkt, truncated)
                },
                None => UsbAction::StallInAndOut { endpoint: 0 },
            }
        } else if req == get_status {
            UsbAction::TransferIn { endpoint: 0, data: descriptor_source.get_device_status(), zlp: true }
        } else if req == ep_get_status {
            UsbAction::GetEndpointStatus { endpoint: setup_pkt.index() as u8 }
        } else if req == ep_set_feature {
            UsbAction::SetEndpointStatus { endpoint: setup_pkt.index() as u8, stall: true }
        } else if req == ep_clear_feature {
            UsbAction::SetEndpointStatus { endpoint: setup_pkt.index() as u8, stall: false }
        } else if req == set_address {
            self.new_address = Some(setup_pkt.value() as u8);
            let empty: &'a [u8] = &[];
            assert(empty@ =~= Seq::<u8>::empty());
            UsbAction::TransferIn { endpoint: 0, data: empty, zlp: true }
        } else if req == set_configuration {
            if setup_pkt.value() == 1 {
                let empty: &'a [u8] = &[];
                assert(empty@ =~= Seq::<u8>::empty());
                UsbAction::TransferIn { endpoint: 0, data: empty, zlp: true }
            } else {
                UsbAction::StallInAndOut { endpoint: 0 }
            }
        } else {
            UsbAction::StallInAndOut { endpoint: 0 }
        }
    }

    /// After a sent packet, switches to the pending address, if any.
    fn handle_packet_sent(&mut self) -> (r: UsbAction<'static>)
        ensures
            final(self).pending_address() is None,
            match old(self).pending_address() {
                Some(a) => r@ == ActionView::SetAddress(a),
                None => r@ is NoAction,
            },
    {
        match self.new_address.take() {
            Some(new_address) => UsbAction::SetAddress { new_address },
            None => UsbAction::NoAction,
        }
    }
}


impl Default for SimpleEp0 {
    fn default() -> (r: Self)
        ensures
            r.pending_address() is None,
    {
        Self::new()
    }
}

/// The largest packet a `Transfer` accumulates (64 bytes); a shorter packet ends a transfer.
pub const TRANSFER_MAX_PACKET_SIZE: usize = 64;

/// Accumulates incoming packets of a multi-packet transfer until a short or
/// zero-length packet ends it. `N` is the capacity in 32-bit words.
pub struct Transfer<const N: usize> {
    buffer: Vec<u8>,
    word_offset: usize,
}

impl<const N: usize> Transfer<N> {
    /// Maximum packet size supported (fixed at 64 bytes).
    pub const MAX_PACKET_SIZE: usize = 64;

    /// The buffer holds `N` words and the received data never passes its end.
    pub closed spec fn wf(&self) -> bool {
        &&& self.buffer@.len() == 4 * N
        &&& 4 * N <= usize::MAX
        &&& self.word_offset <= N
    }

    /// The bytes received so far in the current transfer.
    pub closed spec fn received(&self) -> Seq<u8> {
        self.buffer@.take(4 * self.word_offset as int)
    }

    /// An empty transfer buffer of `N` words.
    pub fn new() -> (r: Self)
        requires
            4 * N <= usize::MAX,
        ensures
            r.wf(),
            r.received() == Seq::<u8>::empty(),
    {
        let buffer: Vec<u8> = vec![0u8; 4 * N];
        let r = Transfer { buffer, word_offset: 0 };
        assert(r.received() =~= Seq::<u8>::empty());
        r
    }

    /// Adds a packet to the transfer. A packet that would run past the buffer
    /// is refused with `OutOfRange` and changes nothing. A full packet
    /// (64 bytes or more) appends its first 64 bytes and returns `None`; a
    /// short one completes the transfer: the whole transfer is returned and
    /// the buffer starts over.
    pub fn splice<P: UsbPacket>(&mut self, packet: P) -> (r: Result<Option<&[u8]>, Error>)
        requires
            old(self).wf(),
        ensures
            final(self).wf(),
            ({
                let d = packet.spec_data();
                let words = (d.len() + 3) / 4;
                &&& (old(self).received().len() / 4 + words > N) <==> r is Err
                &&& r matches Err(e) ==> e == Error::OutOfRange && final(self).received() == old(self).received()
                &&& r matches Ok(Some(bytes)) ==> d.len() < 64 && bytes@ == old(self).received() + d
                    && final(self).received() == Seq::<u8>::empty()
                &&& r matches Ok(None) ==> d.len() >= 64 && final(self).received() == old(self).received()
                    + d.take(64)
            }),
            spec_splice(old(self).received(), packet.spec_data(), N as int) == (
                match r {
                    Ok(Some(bytes)) => Ok(Some(bytes@)),
                    Ok(None) => Ok(None),
                    Err(e) => Err(e),
                },
                final(self).received(),
            ),
    {
        let packet_len = packet.len();
        let start = self.word_offset;
        let end = start + (packet_len / 4 + if packet_len % 4 == 0 { 0 } else { 1 });
        assert((packet_len as int + 3) / 4 == packet_len as int / 4 + if packet_len % 4 == 0 { 0int } else { 1int });
        if end > N {
            return Err(Error::OutOfRange);
        }
        let ghost b0 = self.buffer@;
        let (_, tail) = self.buffer.as_mut_slice().split_at_mut(4 * start);
        let (dest, _) = tail.split_at_mut(4 * (end - start));
        let copied = packet.copy_to(dest);
        let ghost data = packet.spec_data();
        assert(self.buffer@ =~= b0.take(4 * start as int) + data + b0.skip(4 * start + data.len()));
        if packet_len < TRANSFER_MAX_PACKET_SIZE {
            self.word_offset = 0;
            let all: &[u8] = self.buffer.as_slice();
            let result = vstd::slice::slice_subrange(all, 0, start * 4 + packet_len);
            assert(result@ =~= b0.take(4 * start as int) + data);
            assert(Seq::<u8>::empty() =~= self.buffer@.take(0));
            Ok(Some(result))
        } else {
            self.word_offset = self.word_offset + TRANSFER_MAX_PACKET_SIZE / 4;
            assert(self.buffer@.take(4 * self.word_offset as int) =~= b0.take(4 * start as int) + data.take(64));
            Ok(None)
        }
    }
}
impl<const N: usize> Default for Transfer<N> {
    /// An empty transfer buffer of `N` words (for an `N` whose bytes can be
    /// counted in a `usize`).
    fn default() -> (r: Self)
        ensures
            4 * N <= usize::MAX ==> r.wf() && r.received() == Seq::<u8>::empty(),
    {
        if N <= usize::MAX / 4 {
            Self::new()
        } else {
            Transfer { buffer: Vec::new(), word_offset: 0 }
        }
    }
}

/// What adding a packet `d` does to a transfer that has received `received`
/// and holds `n` words: the outcome (the refusal, nothing yet, or the whole
/// transfer) and what it has received afterwards.
pub open spec fn spec_splice(received: Seq<u8>, d: Seq<u8>, n: int) -> (Result<Option<Seq<u8>>, Error>, Seq<u8>) {
    if received.len() / 4 + (d.len() + 3) / 4 > n {
        (Err(Error::OutOfRange), received)
    } else if d.len() >= 64 {
        (Ok(None), received + d.take(64))
    } else {
        (Ok(Some(received + d)), Seq::empty())
    }
}

/// Adds the packets one after the other: the outcome of the last one and
/// what has been received afterwards (`Ok(None)` for no packet).
pub open spec fn spec_splice_all(received: Seq<u8>, packets: Seq<Seq<u8>>, n: int) -> (Result<Option<Seq<u8>>, Error>, Seq<u8>)
    decreases packets.len(),
{
    if packets.len() == 0 {
        (Ok(None), received)
    } else if packets.len() == 1 {
        spec_splice(received, packets[0], n)
    } else {
        spec_splice_all(spec_splice(received, packets[0], n).1, packets.skip(1), n)
    }
}

/// The first 64 bytes of each packet, one after the other.
pub open spec fn spec_full_packets_data(packets: Seq<Seq<u8>>) -> Seq<u8>
    decreases packets.len(),
{
    if packets.len() == 0 {
        Seq::empty()
    } else {
        packets[0].take(64) + spec_full_packets_data(packets.skip(1))
    }
}

/// A transfer that receives full packets of 64 bytes and then a short
/// one, and has room for them, returns on the short one everything received:
/// what it held before, the full packets in order, then the short packet;
/// and it starts over empty.
pub proof fn lemma_multi_packet_transfer(received: Seq<u8>, full: Seq<Seq<u8>>, last: Seq<u8>, n: int)
    requires
        received.len() % 4 == 0,
        forall|i: int| 0 <= i < full.len() ==> #[trigger] full[i].len() == 64,
        last.len() < 64,
        received.len() / 4 + 16 * full.len() + (last.len() + 3) / 4 <= n,
    ensures
        spec_splice_all(received, full.push(last), n) == (
            Ok::<Option<Seq<u8>>, Error>(Some(received + spec_full_packets_data(full) + last)),
            Seq::<u8>::empty(),
        ),
    decreases full.len(),
{
    if full.len() == 0 {
        assert(full.push(last) =~= seq![last]);
        assert(spec_full_packets_data(full) =~= Seq::<u8>::empty());
        assert(received + Seq::<u8>::empty() =~= received);
    } else {
        let p = full[0];
        let next = received + p.take(64);
        assert(p.len() == 64);
        assert(spec_splice(received, p, n).1 == next);
        assert(next.len() == received.len() + 64);
        assert(full.push(last).skip(1) =~= full.skip(1).push(last));
        assert(full.push(last)[0] == p);
        assert forall|i: int| 0 <= i < full.skip(1).len() implies #[trigger] full.skip(1)[i].len() == 64 by {
            assert(full.skip(1)[i] == full[i + 1]);
        }
        lemma_multi_packet_transfer(next, full.skip(1), last, n);
        assert(next + spec_full_packets_data(full.skip(1)) + last =~= received + spec_full_packets_data(full)
            + last);
    }
}

/// What an event on endpoint 0 means for a pending address change.
pub enum Ep0Input {
    /// A SET_ADDRESS request with its address.
    SetAddress(u8),
    /// Another SETUP packet on endpoint 0.
    OtherSetup,
    /// A packet sent on endpoint 0: the end of a status stage.
    StatusSent,
    /// Any other event.
    Other,
}

/// How `ev` counts for a pending address change.
pub open spec fn spec_ep0_input<P: UsbPacket>(ev: UsbEvent<P>) -> Ep0Input {
    match ev {
        UsbEvent::SetupPacket { pkt, endpoint } => if endpoint != 0 {
            Ep0Input::Other
        } else if pkt.spec_request_raw() == 0x0500 {
            Ep0Input::SetAddress(pkt.spec_value() as u8)
        } else {
            Ep0Input::OtherSetup
        },
        UsbEvent::PacketSent { endpoint } => if endpoint == 0 {
            Ep0Input::StatusSent
        } else {
            Ep0Input::Other
        },
        _ => Ep0Input::Other,
    }
}

/// The pending address after one event: a SET_ADDRESS request sets it, the
/// end of a status stage applies and clears it, anything else keeps it.
pub open spec fn spec_ep0_next(p: Option<u8>, e: Ep0Input) -> Option<u8> {
    match e {
        Ep0Input::SetAddress(a) => Some(a),
        Ep0Input::StatusSent => None,
        _ => p,
    }
}

/// The pending address after the events `es`, one after the other.
pub open spec fn spec_ep0_after(p: Option<u8>, es: Seq<Ep0Input>) -> Option<u8>
    decreases es.len(),
{
    if es.len() == 0 {
        p
    } else {
        spec_ep0_after(spec_ep0_next(p, es[0]), es.skip(1))
    }
}

/// A SET_ADDRESS request followed by any events that are neither another
/// SET_ADDRESS nor the end of a status stage leaves its address pending, so
/// the next status stage applies exactly that address (`handle_event`
/// answers `SetAddress` with the pending address) and clears it, and a
/// further status stage applies nothing.
pub proof fn lemma_address_applied_once(p: Option<u8>, v: u8, es: Seq<Ep0Input>)
    requires
        forall|i: int| 0 <= i < es.len() ==> !(#[trigger] es[i] is SetAddress) && !(es[i] is StatusSent),
    ensures
        spec_ep0_after(p, seq![Ep0Input::SetAddress(v)] + es) == Some(v),
        spec_ep0_after(p, seq![Ep0Input::SetAddress(v)] + es + seq![Ep0Input::StatusSent]) is None,
{
    lemma_keeps_pending(Some(v), es);
    assert((seq![Ep0Input::SetAddress(v)] + es).skip(1) =~= es);
    assert((seq![Ep0Input::SetAddress(v)] + es + seq![Ep0Input::StatusSent]).skip(1) =~= es + seq![
        Ep0Input::StatusSent,
    ]);
    lemma_after_append(Some(v), es, Ep0Input::StatusSent);
}

/// Events that neither set nor apply an address keep the pending one.
proof fn lemma_keeps_pending(p: Option<u8>, es: Seq<Ep0Input>)
    requires
        forall|i: int| 0 <= i < es.len() ==> !(#[trigger] es[i] is SetAddress) && !(es[i] is StatusSent),
    ensures
        spec_ep0_after(p, es) == p,
    decreases es.len(),
{
    if es.len() > 0 {
        assert forall|i: int| 0 <= i < es.skip(1).len() implies !(#[trigger] es.skip(1)[i] is SetAddress) && !(
        es.skip(1)[i] is StatusSent) by {
            assert(es.skip(1)[i] == es[i + 1]);
        }
        assert(!(es[0] is SetAddress) && !(es[0] is StatusSent));
        lemma_keeps_pending(p, es.skip(1));
    }
}

/// The pending address after `es` and then `e` is one more step.
proof fn lemma_after_append(p: Option<u8>, es: Seq<Ep0Input>, e: Ep0Input)
    ensures
        spec_ep0_after(p, es + seq![e]) == spec_ep0_next(spec_ep0_after(p, es), e),
    decreases es.len(),
{
    if es.len() == 0 {
        assert((es + seq![e]).skip(1) =~= Seq::<Ep0Input>::empty());
        assert((es + seq![e])[0] == e);
        assert(spec_ep0_after(spec_ep0_next(p, e), Seq::<Ep0Input>::empty()) == spec_ep0_next(p, e));
    } else {
        assert((es + seq![e]).skip(1) =~= es.skip(1) + seq![e]);
        assert((es + seq![e])[0] == es[0]);
        lemma_after_append(spec_ep0_next(p, es[0]), es.skip(1), e);
    }
}

/// Standard requests to an endpoint (request type 0x02) with SET_FEATURE
/// (request 3) or CLEAR_FEATURE (request 1) change the halt state of the
/// endpoint that `wIndex` names: SET_FEATURE stalls it, CLEAR_FEATURE
/// clears the stall.
pub proof fn lemma_endpoint_feature_requests<D: DescriptorSource>(src: &D, pkt: SetupPacket)
    requires
        pkt.spec_request_raw() % 256 == 0x02,
        pkt.spec_request_raw() / 256 == 1 || pkt.spec_request_raw() / 256 == 3,
    ensures
        spec_setup_action(src, pkt) == ActionView::SetEndpointStatus(
            pkt.spec_index() as u8,
            pkt.spec_request_raw() / 256 == 3,
        ),
{
}

/// A standard GET_STATUS request to an endpoint (request type 0x82,
/// request 0) asks for the halt state of the endpoint that `wIndex` names.
pub proof fn lemma_endpoint_status_request<D: DescriptorSource>(src: &D, pkt: SetupPacket)
    requires
        pkt.spec_request_raw() % 256 == 0x82,
        pkt.spec_request_raw() / 256 == 0,
    ensures
        spec_setup_action(src, pkt) == ActionView::GetEndpointStatus(pkt.spec_index() as u8),
{
}

/// A standard GET_DESCRIPTOR request (request type 0x80, request 6) is
/// stalled where the descriptor does not exist; otherwise the reply on
/// endpoint 0 is the start of the descriptor, all of it where `wLength`
/// allows, else exactly `wLength` bytes, never more; the transfer ends with
/// a short or empty packet when the reply is shorter than asked.
pub proof fn lemma_get_descriptor_reply<D: DescriptorSource>(src: &D, pkt: SetupPacket)
    requires
        pkt.spec_request_raw() % 256 == 0x80,
        pkt.spec_request_raw() / 256 == 6,
    ensures
        match spec_descriptor_response(src, pkt) {
            None => spec_setup_action(src, pkt) == ActionView::StallInAndOut(0),
            Some(bytes) => match spec_setup_action(src, pkt) {
                ActionView::TransferIn(e, data, zlp) => {
                    &&& e == 0
                    &&& data.len() <= pkt.spec_length()
                    &&& data == bytes.take(data.len() as int)
                    &&& bytes.len() <= pkt.spec_length() ==> data == bytes
                    &&& bytes.len() > pkt.spec_length() ==> data.len() == pkt.spec_length()
                    &&& zlp == (data.len() == 0 || data.len() < pkt.spec_length())
                },
                _ => false,
            },
        },
{
    match spec_descriptor_response(src, pkt) {
        Some(bytes) => {
            let len = pkt.spec_length();
            let data = bytes.take(min(bytes.len() as int, len as int));
            assert(data == bytes.take(data.len() as int));
            if bytes.len() <= len {
                assert(data =~= bytes);
            }
        },
        None => {},
    }
}

/// Stalling an endpoint stalls both of its directions: the OUT endpoint
/// (bit 7 clear) and then the IN endpoint (bit 7 set) of the same number.
pub proof fn lemma_stall_both_directions(e: u8, before: Seq<DriverCall>, after: Seq<DriverCall>, r: UsbActionRun, a2: ActionView)
    requires
        spec_run(ActionView::StallInAndOut(e), before, after, r, a2),
    ensures
        after.len() == before.len() + 2,
        match (after[before.len() as int], after[before.len() as int + 1]) {
            (DriverCall::Stall(x, sx), DriverCall::Stall(y, sy)) => {
                &&& sx && sy
                &&& x & 0x80u8 == 0u8 && y & 0x80u8 == 0x80u8
                &&& x & 0x7fu8 == e & 0x7fu8 && y & 0x7fu8 == e & 0x7fu8
            },
            _ => false,
        },
{
    assert((e & 0x7fu8) & 0x80u8 == 0u8 && (e & 0x7fu8) & 0x7fu8 == e & 0x7fu8) by (bit_vector);
    assert((e | 0x80u8) & 0x80u8 == 0x80u8 && (e | 0x80u8) & 0x7fu8 == e & 0x7fu8) by (bit_vector);
}

/// An endpoint status request asks the driver whether the endpoint is
/// stalled and answers on endpoint 0 with the 16-bit little-endian status
/// whose bit 0 is the halt state and whose other bits are clear.
pub proof fn lemma_endpoint_status_reply(e: u8, before: Seq<DriverCall>, after: Seq<DriverCall>, r: UsbActionRun, a2: ActionView)
    requires
        spec_run(ActionView::GetEndpointStatus(e), before, after, r, a2),
    ensures
        after.len() == before.len() + 2,
        match (after[before.len() as int], after[before.len() as int + 1]) {
            (DriverCall::IsStalled(x, stalled), DriverCall::TransferIn(ep, data, zlp, _n)) => {
                &&& x == e && ep == 0 && zlp
                &&& data.len() == 2
                &&& data[0] as int + 256 * data[1] as int == (if stalled { 1int } else { 0int })
            },
            _ => false,
        },
{
}

/// Running a transfer hands its data to the driver once; when the driver
/// took it all the transfer is done, and when more is pending it is
/// exactly the data after the bytes taken (a whole number of 32-bit words
/// for an aligned transfer), so what was sent and what remains make up the
/// data.
pub proof fn lemma_transfer_progress(
    e: u8,
    d: Seq<u8>,
    z: bool,
    aligned: bool,
    before: Seq<DriverCall>,
    after: Seq<DriverCall>,
    r: UsbActionRun,
    a2: ActionView,
)
    requires
        spec_run(
            if aligned {
                ActionView::TransferIn(e, d, z)
            } else {
                ActionView::TransferInUnaligned(e, d, z)
            },
            before,
            after,
            r,
            a2,
        ),
    ensures
        after.len() == before.len() + 1,
        match after[before.len() as int] {
            DriverCall::TransferIn(e2, d2, z2, n) | DriverCall::TransferInUnaligned(e2, d2, z2, n) => {
                &&& e2 == e && d2 == d && z2 == z
                &&& n >= d.len() ==> r == UsbActionRun::Done && a2 is NoAction
                &&& r == UsbActionRun::HasMoreData ==> {
                    &&& n < d.len()
                    &&& aligned ==> n % 4 == 0
                    &&& match a2 {
                        ActionView::TransferIn(e3, rest, z3) | ActionView::TransferInUnaligned(e3, rest, z3) => e3
                            == e && z3 == z && d.take(n as int) + rest == d,
                        _ => false,
                    }
                }
            },
            _ => false,
        },
{
    match after[before.len() as int] {
        DriverCall::TransferIn(e2, d2, z2, n) | DriverCall::TransferInUnaligned(e2, d2, z2, n) => {
            if n < d.len() {
                assert(d.take(n as int) + d.skip(n as int) =~= d);
            }
        },
        _ => {},
    }
}

/// Standard device requests without a data stage: SET_ADDRESS (request 5)
/// is acknowledged with an empty status stage, and so is SET_CONFIGURATION
/// (request 9) of configuration 1, the only one; any other configuration
/// is stalled.
pub proof fn lemma_device_setting_requests<D: DescriptorSource>(src: &D, pkt: SetupPacket)
    requires
        pkt.spec_request_raw() % 256 == 0x00,
        pkt.spec_request_raw() / 256 == 5 || pkt.spec_request_raw() / 256 == 9,
    ensures
        pkt.spec_request_raw() / 256 == 5 ==> spec_setup_action(src, pkt) == ActionView::TransferIn(0, seq![], true),
        pkt.spec_request_raw() / 256 == 9 ==> spec_setup_action(src, pkt) == (if pkt.spec_value() == 1 {
            ActionView::TransferIn(0, seq![], true)
        } else {
            ActionView::StallInAndOut(0)
        }),
{
}

} // verus!
