use vstd::prelude::*;

verus! {

/// Device class of the "miscellaneous" triple that marks a composite device
/// built from interface association descriptors. Host OS driver matching
/// requires these values bit-exact.
pub const COMPOSITE_DEVICE_CLASS: u8 = 0xEF;

/// Device sub-class of the composite ("miscellaneous") triple.
pub const COMPOSITE_DEVICE_SUB_CLASS: u8 = 0x02;

/// Device protocol of the composite ("miscellaneous") triple.
pub const COMPOSITE_DEVICE_PROTOCOL: u8 = 0x01;

/// Packet size used on the control endpoint during enumeration.
pub const CONTROL_ENDPOINT_PACKET_SIZE: u8 = 64;

/// The immutable descriptor values the host reads during enumeration: fixed
/// once before the transport task starts, for the device's whole lifetime.
pub struct DeviceIdentity {
    /// USB vendor identifier.
    pub vendor_id: u16,
    /// USB product identifier.
    pub product_id: u16,
    /// Serial-number string reported to the host.
    pub serial_number: String,
    /// Max packet size for the control endpoint.
    pub max_packet_size_0: u8,
    /// Whether the device presents itself through interface association
    /// descriptors as a composite device.
    pub composite_with_iads: bool,
    /// Device class code.
    pub device_class: u8,
    /// Device sub-class code.
    pub device_sub_class: u8,
    /// Device protocol code.
    pub device_protocol: u8,
}

impl DeviceIdentity {
    /// The control packet size is one the standard allows, and a composite
    /// device carries exactly the class triple hosts match drivers on.
    pub open spec fn wf(&self) -> bool {
        &&& (self.max_packet_size_0 == 8 || self.max_packet_size_0 == 16
            || self.max_packet_size_0 == 32 || self.max_packet_size_0 == 64)
        &&& (self.composite_with_iads ==> self.device_class == COMPOSITE_DEVICE_CLASS
            && self.device_sub_class == COMPOSITE_DEVICE_SUB_CLASS
            && self.device_protocol == COMPOSITE_DEVICE_PROTOCOL)
    }

    /// Identity of a composite CDC function: the given vendor, product and
    /// serial number, a 64-byte control endpoint, and the composite class
    /// triple with interface association descriptors enabled.
    pub fn composite(vendor_id: u16, product_id: u16, serial_number: String) -> (d:
        DeviceIdentity)
        ensures
            d.wf(),
            d.vendor_id == vendor_id,
            d.product_id == product_id,
            d.serial_number@ == serial_number@,
            d.max_packet_size_0 == CONTROL_ENDPOINT_PACKET_SIZE,
            d.composite_with_iads,
            d.device_class == COMPOSITE_DEVICE_CLASS,
            d.device_sub_class == COMPOSITE_DEVICE_SUB_CLASS,
            d.device_protocol == COMPOSITE_DEVICE_PROTOCOL,
    {
        DeviceIdentity {
            vendor_id,
            product_id,
            serial_number,
            max_packet_size_0: CONTROL_ENDPOINT_PACKET_SIZE,
            composite_with_iads: true,
            device_class: COMPOSITE_DEVICE_CLASS,
            device_sub_class: COMPOSITE_DEVICE_SUB_CLASS,
            device_protocol: COMPOSITE_DEVICE_PROTOCOL,
        }
    }
}

} // verus!
