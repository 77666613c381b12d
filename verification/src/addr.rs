use vstd::prelude::*;

verus! {

/// Direction of USB traffic, named from the host's point of view: `In` moves
/// data to the host, `Out` moves data from it.
#[derive(Clone, Copy, Debug, PartialEq, Eq, Structural)]
pub enum UsbDirection {
    /// Host to device.
    Out,
    /// Device to host.
    In,
}

/// Transfer type of an endpoint.
#[derive(Clone, Copy, Debug, PartialEq, Eq, Structural)]
pub enum EndpointType {
    Control,
    Isochronous,
    Bulk,
    Interrupt,
}

/// The two-bit code the hardware's endpoint-type field holds for each
/// transfer type.
pub open spec fn type_bits(t: EndpointType) -> u8 {
    match t {
        EndpointType::Control => 0,
        EndpointType::Isochronous => 1,
        EndpointType::Bulk => 2,
        EndpointType::Interrupt => 3,
    }
}

/// Computes the hardware type code of a transfer type.
pub fn type_code(t: EndpointType) -> (r: u8)
    ensures
        r == type_bits(t),
{
    match t {
        EndpointType::Control => 0,
        EndpointType::Isochronous => 1,
        EndpointType::Bulk => 2,
        EndpointType::Interrupt => 3,
    }
}

/// An endpoint address: the hardware endpoint index plus the direction bit
/// of the generic controller interface's packed addressing convention. This
/// peripheral generation has seven endpoints, so only indices 0 through 6
/// name hardware; any other index is an invalid endpoint and is rejected
/// before any register is touched.
#[derive(Clone, Copy, Debug, PartialEq, Eq, Structural)]
pub struct EndpointAddress {
    pub index: u8,
    pub direction: UsbDirection,
}

impl EndpointAddress {
    /// Whether the index names one of the seven hardware endpoints.
    pub open spec fn is_valid(self) -> bool {
        self.index <= 6
    }

    pub fn new(index: u8, direction: UsbDirection) -> (r: EndpointAddress)
        ensures
            r == (EndpointAddress { index, direction }),
    {
        EndpointAddress { index, direction }
    }

    /// True for an IN (device-to-host) address.
    pub fn is_in(&self) -> (r: bool)
        ensures
            r == (self.direction == UsbDirection::In),
    {
        match self.direction {
            UsbDirection::In => true,
            UsbDirection::Out => false,
        }
    }
}

} // verus!
