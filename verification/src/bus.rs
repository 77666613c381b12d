use vstd::prelude::*;

use crate::addr::{type_bits, EndpointAddress, EndpointType, UsbDirection};
use crate::endpoint::Endpoint;
use crate::error::{PollResult, UsbError};
use crate::regs::{PllRegs, UsbRegs};
use crate::size::{code_bytes, size_code};

verus! {

/// The endpoint address `alloc_ep` proposes when the caller names none: the
/// fixed default candidate of this driver generation.
pub open spec fn default_alloc_addr() -> EndpointAddress {
    EndpointAddress { index: 1, direction: UsbDirection::Out }
}

/// The address an allocation call targets: the explicit one if given, the
/// default candidate otherwise.
pub open spec fn target_addr(ep_addr: Option<EndpointAddress>) -> EndpointAddress {
    match ep_addr {
        Some(a) => a,
        None => default_alloc_addr(),
    }
}

/// The top-level device-controller object: it owns the model of the two
/// register blocks the driver touches and fulfils each interface call as one
/// register sequence. Each endpoint-scoped call performs exactly one
/// selection before any endpoint-indexed operation; exclusive access to the
/// bus (`&mut self`) stands for the interrupt-disabled critical section that
/// serialises the sequence on real silicon.
pub struct UsbBus {
    /// The USB controller register block.
    pub usb: UsbRegs,
    /// The PLL control register block.
    pub pll: PllRegs,
}

impl UsbBus {
    pub open spec fn wf(self) -> bool {
        self.usb.wf()
    }

    /// A bus over a peripheral in its power-on reset state.
    pub fn new() -> (r: UsbBus)
        ensures
            r.wf(),
            r.usb.uvrege == false,
            r.usb.usbe == false,
            r.usb.frzclk == false,
            r.usb.uadd == 0,
            r.usb.adden == false,
            r.usb.suspi == false,
            r.usb.wakeupe == false,
            r.usb.uenum == 0,
            forall|j: int| 0 <= j < 7 ==> r.usb.eps@[j].is_reset(),
            r.pll.plle == false,
            r.pll.plock == false,
    {
        UsbBus { usb: UsbRegs::new_reset(), pll: PllRegs::new_reset() }
    }

    /// Validated, unselected handle for an endpoint address.
    pub fn get_ep(&self, ep_addr: EndpointAddress) -> (r: Result<Endpoint, UsbError>)
        ensures
            ep_addr.is_valid() ==> (r matches Ok(ep) && ep.addr() == ep_addr),
            !ep_addr.is_valid() ==> r == Err::<Endpoint, UsbError>(UsbError::InvalidEndpoint),
    {
        Endpoint::new(ep_addr)
    }

    /// Unselected handles for all seven valid endpoint addresses: the full
    /// sweep over everything the selector register can name.
    pub fn iter_endpoints(&self) -> (r: Vec<Endpoint>)
        ensures
            r@.len() == 7,
            forall|j: int|
                0 <= j < 7 ==> (#[trigger] r@[j].addr()) == (EndpointAddress {
                    index: j as u8,
                    direction: UsbDirection::Out,
                }),
    {
        let mut v: Vec<Endpoint> = Vec::new();
        let mut i: u8 = 0;
        while i < 7
            invariant
                i <= 7,
                v@.len() == i as int,
                forall|j: int|
                    0 <= j < i as int ==> (#[trigger] v@[j].addr()) == (EndpointAddress {
                        index: j as u8,
                        direction: UsbDirection::Out,
                    }),
            decreases 7 - i as int,
        {
            match Endpoint::new(EndpointAddress::new(i, UsbDirection::Out)) {
                Ok(ep) => {
                    v.push(ep);
                },
                Err(_) => {
                    proof {
                        assert(false);
                    }
                },
            }
            i = i + 1;
        }
        v
    }

    /// Allocates and configures one endpoint: resolves the target address,
    /// selects the endpoint, enables it, sets direction, type and size,
    /// reserves its FIFO buffer, and accepts the configuration if the
    /// hardware's validity flag agrees. Succeeds exactly on a valid index
    /// and a size within the largest bucket.
    pub fn alloc_ep(
        &mut self,
        ep_dir: UsbDirection,
        ep_addr: Option<EndpointAddress>,
        ep_type: EndpointType,
        max_packet_size: u16,
    ) -> (r: Result<EndpointAddress, UsbError>)
        requires
            old(self).wf(),
        ensures
            final(self).wf(),
            final(self).pll == old(self).pll,
            final(self).usb.same_globals(old(self).usb),
            ({
                let a = target_addr(ep_addr);
                let i = a.index as int;
                if !a.is_valid() {
                    &&& r == Err::<EndpointAddress, UsbError>(UsbError::InvalidEndpoint)
                    &&& *final(self) == *old(self)
                } else if max_packet_size > 512 {
                    &&& r == Err::<EndpointAddress, UsbError>(UsbError::EndpointMemoryOverflow)
                    &&& final(self).usb.uenum == a.index
                    &&& final(self).usb.same_eps_except(old(self).usb, i)
                    &&& ({
                        let o = old(self).usb.eps@[i];
                        let e = final(self).usb.eps@[i];
                        &&& e.epen == true
                        &&& e.stallrq == o.stallrq
                        &&& e.epdir_in == (ep_dir == UsbDirection::In)
                        &&& e.eptype == type_bits(ep_type)
                        &&& e.alloc == o.alloc
                        &&& e.epsize == o.epsize
                        &&& e.cfgok == o.cfgok
                        &&& e.same_bank(o)
                    })
                } else {
                    &&& r == Ok::<EndpointAddress, UsbError>(a)
                    &&& final(self).usb.uenum == a.index
                    &&& final(self).usb.same_eps_except(old(self).usb, i)
                    &&& ({
                        let o = old(self).usb.eps@[i];
                        let e = final(self).usb.eps@[i];
                        &&& e.epen == true
                        &&& e.stallrq == o.stallrq
                        &&& e.epdir_in == (ep_dir == UsbDirection::In)
                        &&& e.eptype == type_bits(ep_type)
                        &&& e.epsize == size_code(max_packet_size)
                        &&& e.alloc == true
                        &&& e.cfgok == true
                        &&& e.bank_rebuilt()
                    })
                }
            }),
    {
        let addr = match ep_addr {
            Some(a) => a,
            None => EndpointAddress::new(1, UsbDirection::Out),
        };
        let ep = match Endpoint::new(addr) {
            Ok(ep) => ep,
            Err(err) => {
                return Err(err);
            },
        };
        let sel = ep.select(&mut self.usb);
        sel.enable(&mut self.usb);
        sel.set_direction(&mut self.usb, ep_dir);
        sel.set_typ(&mut self.usb, ep_type);
        match sel.set_size(&mut self.usb, max_packet_size) {
            Ok(()) => {},
            Err(err) => {
                return Err(err);
            },
        }
        sel.allocate(&mut self.usb);
        if sel.is_cfg_ok(&self.usb) {
            Ok(addr)
        } else {
            Err(UsbError::InvalidEndpoint)
        }
    }

    /// Global power-up: enable the pad regulator, enable the PLL, poll until
    /// it reports lock, then enable the USB interface bit. The lock poll is
    /// the one intentionally blocking step of the driver; the model's PLL
    /// reports locked by the time it is read.
    pub fn enable(&mut self)
        requires
            old(self).wf(),
        ensures
            final(self).wf(),
            final(self).usb.uvrege == true,
            final(self).pll.plle == true,
            final(self).pll.plock == true,
            final(self).usb.usbe == true,
            final(self).usb.frzclk == old(self).usb.frzclk,
            final(self).usb.uadd == old(self).usb.uadd,
            final(self).usb.adden == old(self).usb.adden,
            final(self).usb.suspi == old(self).usb.suspi,
            final(self).usb.wakeupe == old(self).usb.wakeupe,
            final(self).usb.uenum == old(self).usb.uenum,
            final(self).usb.eps@ == old(self).usb.eps@,
    {
        // Power on the USB pads regulator before anything else.
        self.usb.uvrege = true;
        // Enable the PLL, then poll its lock flag.
        self.pll.set_plle(true);
        while !self.pll.plock
            invariant
                self.pll.plock,
            decreases 0int,
        {
        }
        // Only a locked clock may drive the interface.
        self.usb.usbe = true;
    }

    /// Clears the USB-interface-enable bit, dropping the peripheral off the
    /// bus.
    pub fn reset(&mut self)
        requires
            old(self).wf(),
        ensures
            final(self).wf(),
            final(self).pll == old(self).pll,
            final(self).usb.usbe == false,
            final(self).usb.uvrege == old(self).usb.uvrege,
            final(self).usb.frzclk == old(self).usb.frzclk,
            final(self).usb.uadd == old(self).usb.uadd,
            final(self).usb.adden == old(self).usb.adden,
            final(self).usb.suspi == old(self).usb.suspi,
            final(self).usb.wakeupe == old(self).usb.wakeupe,
            final(self).usb.uenum == old(self).usb.uenum,
            final(self).usb.eps@ == old(self).usb.eps@,
    {
        self.usb.usbe = false;
    }

    /// Latches the 7-bit device address assigned during enumeration, then
    /// sets the address-enable bit in a second, separate write: the hardware
    /// requires the value to be in place before it is enabled.
    pub fn set_device_address(&mut self, addr: u8)
        requires
            old(self).wf(),
        ensures
            final(self).wf(),
            final(self).pll == old(self).pll,
            final(self).usb.uadd == addr & 0x7f,
            final(self).usb.adden == true,
            final(self).usb.uvrege == old(self).usb.uvrege,
            final(self).usb.usbe == old(self).usb.usbe,
            final(self).usb.frzclk == old(self).usb.frzclk,
            final(self).usb.suspi == old(self).usb.suspi,
            final(self).usb.wakeupe == old(self).usb.wakeupe,
            final(self).usb.uenum == old(self).usb.uenum,
            final(self).usb.eps@ == old(self).usb.eps@,
    {
        self.usb.uadd = addr & 0x7f;
        self.usb.adden = true;
    }

    /// Writes to an IN endpoint: selects it, fails with `WouldBlock` unless
    /// its bank is ready, with `BufferOverflow` if the buffer exceeds the
    /// configured size, and otherwise copies the buffer into the bank and
    /// advances the FIFO. Never copies more than the least of the buffer
    /// length, the configured size and the bank's remaining room.
    pub fn write(&mut self, ep_addr: EndpointAddress, buf: &Vec<u8>) -> (r: Result<
        usize,
        UsbError,
    >)
        requires
            old(self).wf(),
        ensures
            final(self).wf(),
            final(self).pll == old(self).pll,
            final(self).usb.same_globals(old(self).usb),
            !ep_addr.is_valid() ==> r == Err::<usize, UsbError>(UsbError::InvalidEndpoint)
                && *final(self) == *old(self),
            ep_addr.is_valid() ==> final(self).usb.uenum == ep_addr.index
                && final(self).usb.same_eps_except(old(self).usb, ep_addr.index as int) && ({
                let o = old(self).usb.eps@[ep_addr.index as int];
                let e = final(self).usb.eps@[ep_addr.index as int];
                if !o.txini {
                    r == Err::<usize, UsbError>(UsbError::WouldBlock) && e == o
                } else if o.epsize > 6 {
                    r == Err::<usize, UsbError>(UsbError::EndpointMemoryOverflow) && e == o
                } else if buf@.len() > code_bytes(o.epsize) as nat {
                    r == Err::<usize, UsbError>(UsbError::BufferOverflow) && e == o
                } else {
                    let cap = code_bytes(o.epsize) as int;
                    let room = if o.fifo@.len() <= cap {
                        cap - o.fifo@.len()
                    } else {
                        0
                    };
                    let n = if buf@.len() <= room {
                        buf@.len() as int
                    } else {
                        room
                    };
                    &&& r == Ok::<usize, UsbError>(n as usize)
                    &&& n <= buf@.len()
                    &&& n <= cap
                    &&& n <= room
                    &&& e.fifo@ == o.fifo@ + buf@.take(n)
                    &&& e.same_ctl(o)
                    &&& e.same_cfg(o)
                    &&& e.rxouti == o.rxouti
                    &&& e.txini == false
                    &&& e.fifocon == false
                }
            }),
    {
        let ep = match Endpoint::new(ep_addr) {
            Ok(ep) => ep,
            Err(err) => {
                return Err(err);
            },
        };
        let sel = ep.select(&mut self.usb);
        if !sel.can_write(&self.usb) {
            return Err(UsbError::WouldBlock);
        }
        let size = match sel.get_size(&self.usb) {
            Ok(s) => s,
            Err(err) => {
                return Err(err);
            },
        };
        if buf.len() > size as usize {
            return Err(UsbError::BufferOverflow);
        }
        sel.write(&mut self.usb, buf)
    }

    /// Reads from an OUT endpoint: selects it, fails with `WouldBlock`
    /// unless data has been received, with `BufferOverflow` if the buffer
    /// exceeds the configured size, and otherwise drains the bank into the
    /// buffer's prefix and advances the FIFO. Never copies more than the
    /// least of the buffer length and the bank's byte count.
    pub fn read(&mut self, ep_addr: EndpointAddress, buf: &mut Vec<u8>) -> (r: Result<
        usize,
        UsbError,
    >)
        requires
            old(self).wf(),
        ensures
            final(self).wf(),
            final(self).pll == old(self).pll,
            final(self).usb.same_globals(old(self).usb),
            final(buf)@.len() == old(buf)@.len(),
            !ep_addr.is_valid() ==> r == Err::<usize, UsbError>(UsbError::InvalidEndpoint)
                && *final(self) == *old(self) && final(buf)@ == old(buf)@,
            ep_addr.is_valid() ==> final(self).usb.uenum == ep_addr.index
                && final(self).usb.same_eps_except(old(self).usb, ep_addr.index as int) && ({
                let o = old(self).usb.eps@[ep_addr.index as int];
                let e = final(self).usb.eps@[ep_addr.index as int];
                if !o.rxouti {
                    r == Err::<usize, UsbError>(UsbError::WouldBlock) && e == o && final(buf)@
                        == old(buf)@
                } else if o.epsize > 6 {
                    r == Err::<usize, UsbError>(UsbError::EndpointMemoryOverflow) && e == o
                        && final(buf)@ == old(buf)@
                } else if old(buf)@.len() > code_bytes(o.epsize) as nat {
                    r == Err::<usize, UsbError>(UsbError::BufferOverflow) && e == o && final(buf)@
                        == old(buf)@
                } else {
                    let n = if old(buf)@.len() <= o.fifo@.len() {
                        old(buf)@.len() as int
                    } else {
                        o.fifo@.len() as int
                    };
                    &&& r == Ok::<usize, UsbError>(n as usize)
                    &&& n <= old(buf)@.len()
                    &&& n <= o.fifo@.len()
                    &&& (o.fifo@.len() <= code_bytes(o.epsize) as nat ==> n <= code_bytes(o.epsize) as int)
                    &&& forall|k: int| 0 <= k < n ==> final(buf)@[k] == o.fifo@[k]
                    &&& forall|k: int| n <= k < old(buf)@.len() ==> final(buf)@[k] == old(buf)@[k]
                    &&& e.same_ctl(o)
                    &&& e.same_cfg(o)
                    &&& e.fifo@.len() == 0
                    &&& e.rxouti == false
                    &&& e.txini == o.txini
                    &&& e.fifocon == false
                }
            }),
    {
        let ep = match Endpoint::new(ep_addr) {
            Ok(ep) => ep,
            Err(err) => {
                return Err(err);
            },
        };
        let sel = ep.select(&mut self.usb);
        if !sel.can_read(&self.usb) {
            return Err(UsbError::WouldBlock);
        }
        let size = match sel.get_size(&self.usb) {
            Ok(s) => s,
            Err(err) => {
                return Err(err);
            },
        };
        if buf.len() > size as usize {
            return Err(UsbError::BufferOverflow);
        }
        sel.read(&mut self.usb, buf)
    }

    /// Requests or clears a stall on an endpoint. The interface does not
    /// thread an invalid-endpoint error through this call, so the address
    /// must already be valid.
    pub fn set_stalled(&mut self, ep_addr: EndpointAddress, stalled: bool)
        requires
            old(self).wf(),
            ep_addr.is_valid(),
        ensures
            final(self).wf(),
            final(self).pll == old(self).pll,
            final(self).usb.same_globals(old(self).usb),
            final(self).usb.uenum == ep_addr.index,
            final(self).usb.same_eps_except(old(self).usb, ep_addr.index as int),
            ({
                let o = old(self).usb.eps@[ep_addr.index as int];
                let e = final(self).usb.eps@[ep_addr.index as int];
                &&& e.stallrq == stalled
                &&& e.epen == o.epen
                &&& e.same_cfg(o)
                &&& e.same_bank(o)
            }),
    {
        let ep = match Endpoint::new(ep_addr) {
            Ok(ep) => ep,
            Err(_) => {
                proof {
                    assert(false);
                }
                return ;
            },
        };
        let sel = ep.select(&mut self.usb);
        sel.set_stalled(&mut self.usb, stalled);
    }

    /// Reads an endpoint's stall status straight from the hardware flag. As
    /// with `set_stalled`, the address must already be valid.
    pub fn is_stalled(&mut self, ep_addr: EndpointAddress) -> (r: bool)
        requires
            old(self).wf(),
            ep_addr.is_valid(),
        ensures
            final(self).wf(),
            final(self).pll == old(self).pll,
            final(self).usb.same_globals(old(self).usb),
            final(self).usb.uenum == ep_addr.index,
            final(self).usb.eps@ == old(self).usb.eps@,
            r == old(self).usb.eps@[ep_addr.index as int].stallrq,
    {
        let ep = match Endpoint::new(ep_addr) {
            Ok(ep) => ep,
            Err(_) => {
                proof {
                    assert(false);
                }
                return false;
            },
        };
        let sel = ep.select(&mut self.usb);
        sel.is_stalled(&self.usb)
    }

    /// Enters suspend: clears the suspend-interrupt flag, freezes the USB
    /// clock, disables the PLL, and arms the wake-up interrupt so a later
    /// bus event can bring the MCU back. Entering the sleep state itself is
    /// a platform concern outside this driver.
    pub fn suspend(&mut self)
        requires
            old(self).wf(),
        ensures
            final(self).wf(),
            final(self).usb.suspi == false,
            final(self).usb.frzclk == true,
            final(self).pll.plle == false,
            final(self).pll.plock == false,
            final(self).usb.wakeupe == true,
            final(self).usb.uvrege == old(self).usb.uvrege,
            final(self).usb.usbe == old(self).usb.usbe,
            final(self).usb.uadd == old(self).usb.uadd,
            final(self).usb.adden == old(self).usb.adden,
            final(self).usb.uenum == old(self).usb.uenum,
            final(self).usb.eps@ == old(self).usb.eps@,
    {
        // Acknowledge the suspend condition.
        self.usb.suspi = false;
        // Freeze the USB clock, then shut the PLL down.
        self.usb.frzclk = true;
        self.pll.set_plle(false);
        // A wake-up interrupt must be armed to leave sleep later.
        self.usb.wakeupe = true;
    }

    /// Leaves suspend: re-enables the PLL, polls for lock, then unfreezes
    /// the USB clock.
    pub fn resume(&mut self)
        requires
            old(self).wf(),
        ensures
            final(self).wf(),
            final(self).pll.plle == true,
            final(self).pll.plock == true,
            final(self).usb.frzclk == false,
            final(self).usb.uvrege == old(self).usb.uvrege,
            final(self).usb.usbe == old(self).usb.usbe,
            final(self).usb.uadd == old(self).usb.uadd,
            final(self).usb.adden == old(self).usb.adden,
            final(self).usb.suspi == old(self).usb.suspi,
            final(self).usb.wakeupe == old(self).usb.wakeupe,
            final(self).usb.uenum == old(self).usb.uenum,
            final(self).usb.eps@ == old(self).usb.eps@,
    {
        self.pll.set_plle(true);
        while !self.pll.plock
            invariant
                self.pll.plock,
            decreases 0int,
        {
        }
        self.usb.frzclk = false;
    }

    /// Non-blocking poll for bus events. Event delivery is interrupt-driven
    /// in this driver generation and not surfaced here, so the poll always
    /// reports that nothing new happened.
    pub fn poll(&self) -> (r: PollResult)
        ensures
            r == PollResult::NoEvent,
    {
        PollResult::NoEvent
    }
}

} // verus!
