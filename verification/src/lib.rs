//! Driver logic for an AVR-style USB device peripheral.
//!
//! The driver adapts the chip's built-in USB device peripheral to a generic
//! device-controller interface: endpoint allocation, the endpoint-selection
//! protocol imposed by the single shared selector register, FIFO transfer
//! with flow-control checks, stall control, and the PLL power sequences for
//! enable, suspend and resume.
//!
//! Every register sequence is stated and proved over an explicit model of the
//! two register blocks the driver touches ([`regs::UsbRegs`] and
//! [`regs::PllRegs`]). The model is the single source of truth: queries
//! re-read it rather than any cached flag, exactly as the driver on real
//! silicon re-reads the hardware. The volatile accesses themselves, and the
//! interrupt-disabled critical sections that serialise them, are the
//! platform's side and live outside this crate; here, exclusive access to the
//! register model (`&mut`) stands for the critical section: no operation on
//! the model can interleave with another.

pub mod addr;
pub mod bus;
pub mod endpoint;
pub mod error;
pub mod regs;
pub mod size;

pub use addr::{EndpointAddress, EndpointType, UsbDirection};
pub use bus::UsbBus;
pub use endpoint::{Endpoint, SelectedEp};
pub use error::{PollResult, UsbError};
