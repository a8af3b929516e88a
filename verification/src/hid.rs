//! HID transport: descriptor data and control-request handling for a
//! boot-protocol USB mouse, and the non-blocking report write against a
//! model of the interrupt-IN endpoint.

use vstd::prelude::*;
use vstd::slice::slice_to_vec;

verus! {

/// USB interface class code for HID.
pub const USB_CLASS_HID: u8 = 0x03;

/// USB interface subclass code for the boot interface.
pub const USB_SUBCLASS_BOOT: u8 = 0x01;

/// USB interface protocol code for a mouse.
pub const USB_INTERFACE_MOUSE: u8 = 0x02;

/// Descriptor type of the HID class descriptor.
pub const DESCRIPTOR_TYPE_HID: u8 = 0x21;

/// Descriptor type of the HID report descriptor.
pub const DESCRIPTOR_TYPE_REPORT: u8 = 0x22;

/// Standard request code of GET_DESCRIPTOR.
pub const REQ_GET_DESCRIPTOR: u8 = 0x06;

/// HID class request code of GET_REPORT.
pub const REQ_GET_REPORT: u8 = 0x01;

/// The fixed report descriptor: a Generic-Desktop Mouse with a Pointer
/// collection of three 1-bit buttons (plus five padding bits) and relative
/// X/Y as signed 8-bit fields.
pub open spec fn report_descr() -> Seq<u8> {
    seq![
        0x05u8, 0x01u8, // usage page: generic desktop
        0x09u8, 0x02u8, // usage: mouse
        0xa1u8, 0x01u8, // collection: application
        0x09u8, 0x01u8, //   usage: pointer
        0xa1u8, 0x00u8, //   collection: physical
        0x05u8, 0x09u8, //     usage page: button
        0x19u8, 0x01u8, //     usage minimum: button 1
        0x29u8, 0x03u8, //     usage maximum: button 3
        0x15u8, 0x00u8, //     logical minimum: 0
        0x25u8, 0x01u8, //     logical maximum: 1
        0x95u8, 0x03u8, //     report count: 3
        0x75u8, 0x01u8, //     report size: 1
        0x81u8, 0x02u8, //     input: data, variable, absolute
        0x95u8, 0x01u8, //     report count: 1
        0x75u8, 0x05u8, //     report size: 5
        0x81u8, 0x03u8, //     input: constant, variable, absolute
        0x05u8, 0x01u8, //     usage page: generic desktop
        0x09u8, 0x30u8, //     usage: x
        0x09u8, 0x31u8, //     usage: y
        0x15u8, 0x81u8, //     logical minimum: -127
        0x25u8, 0x7fu8, //     logical maximum: 127
        0x75u8, 0x08u8, //     report size: 8
        0x95u8, 0x02u8, //     report count: 2
        0x81u8, 0x06u8, //     input: data, variable, relative
        0xc0u8, //   end collection
        0xc0u8, // end collection
    ]
}

/// The 9-byte HID class descriptor: length, type, bcdHID 1.01, country
/// code 0, one sub-descriptor of the report type, and the report
/// descriptor's byte length, little-endian.
pub open spec fn class_descr() -> Seq<u8> {
    seq![
        0x09u8, // length of this descriptor
        0x21u8, // descriptor type: HID
        0x01u8, // bcdHID, low byte
        0x01u8, // bcdHID, high byte
        0x00u8, // country code
        0x01u8, // number of sub-descriptors
        0x22u8, // sub-descriptor type: report
        ((report_descr().len() as u16) as u8), // report length, low byte
        (((report_descr().len() as u16) / 256) as u8), // report length, high byte
    ]
}

/// The class descriptor's embedded length field always equals the actual
/// byte length of the report descriptor, encoded little-endian across its
/// two length bytes.
pub proof fn lemma_class_descr_length_field()
    ensures
        class_descr().len() == 9,
        class_descr()[7] as int + 256 * (class_descr()[8] as int) == report_descr().len(),
{
}

/// Returns the fixed report descriptor.
pub fn report_descriptor() -> (r: Vec<u8>)
    ensures
        r@ == report_descr(),
        r@.len() == 50,
{
    let mut r: Vec<u8> = Vec::new();
    r.push(0x05);
    r.push(0x01);
    r.push(0x09);
    r.push(0x02);
    r.push(0xa1);
    r.push(0x01);
    r.push(0x09);
    r.push(0x01);
    r.push(0xa1);
    r.push(0x00);
    r.push(0x05);
    r.push(0x09);
    r.push(0x19);
    r.push(0x01);
    r.push(0x29);
    r.push(0x03);
    r.push(0x15);
    r.push(0x00);
    r.push(0x25);
    r.push(0x01);
    r.push(0x95);
    r.push(0x03);
    r.push(0x75);
    r.push(0x01);
    r.push(0x81);
    r.push(0x02);
    r.push(0x95);
    r.push(0x01);
    r.push(0x75);
    r.push(0x05);
    r.push(0x81);
    r.push(0x03);
    r.push(0x05);
    r.push(0x01);
    r.push(0x09);
    r.push(0x30);
    r.push(0x09);
    r.push(0x31);
    r.push(0x15);
    r.push(0x81);
    r.push(0x25);
    r.push(0x7f);
    r.push(0x75);
    r.push(0x08);
    r.push(0x95);
    r.push(0x02);
    r.push(0x81);
    r.push(0x06);
    r.push(0xc0);
    r.push(0xc0);
    proof {
        assert(r@ =~= report_descr());
    }
    r
}

/// Returns the 9-byte class descriptor, its length field computed from the
/// report descriptor's actual length.
pub fn class_descriptor() -> (r: Vec<u8>)
    ensures
        r@ == class_descr(),
        r@[7] as int + 256 * (r@[8] as int) == report_descr().len(),
{
    let report: Vec<u8> = report_descriptor();
    let descr_len: u16 = report.len() as u16;
    proof {
        assert(descr_len == 50);
        assert(descr_len >> 8 == 0u16) by (bit_vector)
            requires
                descr_len == 50u16,
        ;
    }
    let mut r: Vec<u8> = Vec::new();
    r.push(0x09);
    r.push(0x21);
    r.push(0x01);
    r.push(0x01);
    r.push(0x00);
    r.push(0x01);
    r.push(0x22);
    r.push(descr_len as u8);
    r.push((descr_len >> 8) as u8);
    proof {
        assert(r@ =~= class_descr());
    }
    r
}

/// The type of a control request, from the bmRequestType field.
#[derive(Clone, Copy, PartialEq, Eq, Structural, Debug)]
pub enum RequestType {
    Standard,
    Class,
    Vendor,
    Reserved,
}

/// The recipient of a control request, from the bmRequestType field.
#[derive(Clone, Copy, PartialEq, Eq, Structural, Debug)]
pub enum Recipient {
    Device,
    Interface,
    Endpoint,
    Other,
}

/// A decoded USB control request, as the controller hands it up.
#[derive(Clone, Copy, PartialEq, Eq, Structural, Debug)]
pub struct ControlRequest {
    pub request_type: RequestType,
    pub recipient: Recipient,
    pub request: u8,
    pub value: u16,
    pub index: u16,
}

impl ControlRequest {
    /// The descriptor type of a GET_DESCRIPTOR request: the high byte of
    /// the value field.
    pub open spec fn spec_descriptor_type(self) -> u8 {
        (self.value >> 8) as u8
    }

    pub fn descriptor_type(&self) -> (t: u8)
        ensures
            t == self.spec_descriptor_type(),
    {
        (self.value >> 8) as u8
    }
}

/// How the transport answers an IN-direction control transfer: send data,
/// stall it, or leave it for other class instances (the default stall).
#[derive(Debug)]
pub enum ControlInAction {
    Accept(Vec<u8>),
    Reject,
    Ignore,
}

/// How the transport answers an OUT-direction control transfer.
#[derive(Clone, Copy, PartialEq, Eq, Structural, Debug)]
pub enum ControlOutAction {
    Reject,
    Ignore,
}

/// The 8-byte all-zero placeholder that answers GET_REPORT.
pub open spec fn zero_report_bytes() -> Seq<u8> {
    Seq::new(8, |i: int| 0u8)
}

/// Errors of the report-write operation, after the transport's taxonomy:
/// a transient busy endpoint, a report beyond the endpoint's capacity, or
/// anything else, which is unspecified and fatal.
#[derive(Clone, Copy, PartialEq, Eq, Structural, Debug)]
pub enum UsbError {
    WouldBlock,
    BufferOverflow,
    Unspecified,
}

/// The interrupt-IN endpoint, modelled by the state the transport's
/// contract turns on: whether the previous report is still draining, and
/// which bytes it holds. Allocated once; capacity and polling interval
/// are fixed.
#[derive(Clone, Debug)]
pub struct EndpointModel {
    pub max_packet_size: usize,
    pub interval_ms: u8,
    pub busy: bool,
    /// The report currently draining towards the host.
    pub in_flight: Vec<u8>,
}

impl EndpointModel {
    /// The transmit-complete event: the host collected the report and the
    /// endpoint is free again.
    pub fn complete(&mut self)
        ensures
            !final(self).busy,
            final(self).max_packet_size == old(self).max_packet_size,
            final(self).interval_ms == old(self).interval_ms,
            final(self).in_flight == old(self).in_flight,
    {
        self.busy = false;
    }
}

/// The HID transport: one interface number and one interrupt-IN endpoint,
/// owned exclusively for the device's lifetime.
#[derive(Clone, Debug)]
pub struct HIDClass {
    pub report_if: u8,
    pub report_ep: EndpointModel,
}

/// The descriptor pieces the transport contributes to the configuration
/// descriptor: its interface descriptor and, under it, the HID class
/// descriptor (type byte and body), before the endpoint descriptor.
pub struct ConfigDescriptors {
    pub interface_number: u8,
    pub interface_class: u8,
    pub interface_subclass: u8,
    pub interface_protocol: u8,
    pub hid_descriptor_type: u8,
    pub hid_descriptor_body: Vec<u8>,
}

impl HIDClass {
    /// Takes ownership of the one interface number the allocator granted;
    /// the endpoint is the fixed 8-byte, 10 ms interrupt-IN endpoint.
    pub fn new(interface: u8) -> (h: HIDClass)
        ensures
            h.report_if == interface,
            h.report_ep.max_packet_size == 8,
            h.report_ep.interval_ms == 10,
            !h.report_ep.busy,
    {
        HIDClass {
            report_if: interface,
            report_ep: EndpointModel {
                max_packet_size: 8,
                interval_ms: 10,
                busy: false,
                in_flight: Vec::new(),
            },
        }
    }

    /// A class request aimed at this transport: class type, interface
    /// recipient, and the index of the owned interface. Anything else is
    /// deferred entirely.
    pub open spec fn targets_class_interface(self, req: ControlRequest) -> bool {
        &&& req.request_type is Class
        &&& req.recipient is Interface
        &&& req.index == self.report_if as u16
    }

    /// A standard GET_DESCRIPTOR at the interface for the given descriptor
    /// type.
    pub open spec fn is_get_descriptor(req: ControlRequest, dtype: u8) -> bool {
        &&& req.request_type is Standard
        &&& req.recipient is Interface
        &&& req.request == REQ_GET_DESCRIPTOR
        &&& req.spec_descriptor_type() == dtype
    }

    /// Answers an IN-direction control transfer. A standard GET_DESCRIPTOR
    /// at the interface returns the class descriptor for type 0x21 and the
    /// report descriptor verbatim for type 0x22; any other standard request
    /// is left unhandled. Within the class-request scope, GET_REPORT is
    /// always answered with 8 zero bytes, whatever came before, and every
    /// other class request is stalled; requests outside that scope are
    /// ignored entirely.
    pub fn control_in(&self, req: &ControlRequest) -> (a: ControlInAction)
        ensures
            (Self::is_get_descriptor(*req, DESCRIPTOR_TYPE_HID) ==>
                (a matches ControlInAction::Accept(d) && d@ == class_descr())),
            (Self::is_get_descriptor(*req, DESCRIPTOR_TYPE_REPORT) ==>
                (a matches ControlInAction::Accept(d) && d@ == report_descr())),
            (req.request_type is Standard
                && !Self::is_get_descriptor(*req, DESCRIPTOR_TYPE_HID)
                && !Self::is_get_descriptor(*req, DESCRIPTOR_TYPE_REPORT) ==> a is Ignore),
            (!(req.request_type is Standard) && self.targets_class_interface(*req)
                && req.request == REQ_GET_REPORT ==>
                (a matches ControlInAction::Accept(d) && d@ == zero_report_bytes())),
            (!(req.request_type is Standard) && self.targets_class_interface(*req)
                && req.request != REQ_GET_REPORT ==> a is Reject),
            (!(req.request_type is Standard) && !self.targets_class_interface(*req) ==>
                a is Ignore),
    {
        if req.request_type == RequestType::Standard {
            if req.recipient == Recipient::Interface && req.request == REQ_GET_DESCRIPTOR {
                let dtype: u8 = req.descriptor_type();
                if dtype == DESCRIPTOR_TYPE_HID {
                    ControlInAction::Accept(class_descriptor())
                } else if dtype == DESCRIPTOR_TYPE_REPORT {
                    ControlInAction::Accept(report_descriptor())
                } else {
                    ControlInAction::Ignore
                }
            } else {
                ControlInAction::Ignore
            }
        } else if req.request_type == RequestType::Class && req.recipient == Recipient::Interface
            && req.index == self.report_if as u16 {
            if req.request == REQ_GET_REPORT {
                ControlInAction::Accept(zero_report())
            } else {
                ControlInAction::Reject
            }
        } else {
            ControlInAction::Ignore
        }
    }

    /// Answers an OUT-direction control transfer: every class request
    /// aimed at this interface is stalled, anything else is deferred.
    pub fn control_out(&self, req: &ControlRequest) -> (a: ControlOutAction)
        ensures
            a is Reject <==> self.targets_class_interface(*req),
    {
        if req.request_type == RequestType::Class && req.recipient == Recipient::Interface
            && req.index == self.report_if as u16 {
            ControlOutAction::Reject
        } else {
            ControlOutAction::Ignore
        }
    }

    /// The descriptor pieces for the configuration descriptor: a HID boot
    /// mouse interface, then the class descriptor's type and body (the
    /// seven bytes after its length and type).
    pub fn get_configuration_descriptors(&self) -> (c: ConfigDescriptors)
        ensures
            c.interface_number == self.report_if,
            c.interface_class == USB_CLASS_HID,
            c.interface_subclass == USB_SUBCLASS_BOOT,
            c.interface_protocol == USB_INTERFACE_MOUSE,
            c.hid_descriptor_type == DESCRIPTOR_TYPE_HID,
            c.hid_descriptor_body@ == class_descr().subrange(2, 9),
    {
        let full: Vec<u8> = class_descriptor();
        let mut body: Vec<u8> = Vec::new();
        let mut i: usize = 2;
        while i < 9
            invariant
                2 <= i <= 9,
                full@ == class_descr(),
                body@ =~= class_descr().subrange(2, i as int),
            decreases 9 - i,
        {
            body.push(full[i]);
            i = i + 1;
        }
        proof {
            assert(body@ =~= class_descr().subrange(2, 9));
        }
        ConfigDescriptors {
            interface_number: self.report_if,
            interface_class: USB_CLASS_HID,
            interface_subclass: USB_SUBCLASS_BOOT,
            interface_protocol: USB_INTERFACE_MOUSE,
            hid_descriptor_type: DESCRIPTOR_TYPE_HID,
            hid_descriptor_body: body,
        }
    }

    /// One non-blocking transmit attempt on the interrupt endpoint.
    /// Returns the bytes accepted on success; WouldBlock while the
    /// previous report is still draining (the caller must not retry
    /// synchronously); BufferOverflow when the report exceeds the
    /// endpoint's capacity, a caller-side invariant violation.
    pub fn write(&mut self, data: &[u8]) -> (r: Result<usize, UsbError>)
        ensures
            final(self).report_if == old(self).report_if,
            final(self).report_ep.max_packet_size == old(self).report_ep.max_packet_size,
            final(self).report_ep.interval_ms == old(self).report_ep.interval_ms,
            (data@.len() > old(self).report_ep.max_packet_size ==>
                r == Err::<usize, UsbError>(UsbError::BufferOverflow) && *final(self) == *old(self)),
            (data@.len() <= old(self).report_ep.max_packet_size && old(self).report_ep.busy ==>
                r == Err::<usize, UsbError>(UsbError::WouldBlock) && *final(self) == *old(self)),
            (data@.len() <= old(self).report_ep.max_packet_size && !old(self).report_ep.busy ==> {
                &&& r == Ok::<usize, UsbError>(data@.len() as usize)
                &&& final(self).report_ep.busy
                &&& final(self).report_ep.in_flight@ == data@
            }),
    {
        if data.len() > self.report_ep.max_packet_size {
            Err(UsbError::BufferOverflow)
        } else if self.report_ep.busy {
            Err(UsbError::WouldBlock)
        } else {
            self.report_ep.busy = true;
            self.report_ep.in_flight = slice_to_vec(data);
            Ok(data.len())
        }
    }
}

/// Returns the 8-byte all-zero report that answers GET_REPORT.
pub fn zero_report() -> (r: Vec<u8>)
    ensures
        r@ == zero_report_bytes(),
{
    let mut r: Vec<u8> = Vec::new();
    let mut i: usize = 0;
    while i < 8
        invariant
            i <= 8,
            r@ =~= Seq::new(i as nat, |j: int| 0u8),
        decreases 8 - i,
    {
        r.push(0);
        i = i + 1;
    }
    proof {
        assert(r@ =~= zero_report_bytes());
    }
    r
}

} // verus!
