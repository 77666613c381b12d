use vstd::prelude::*;

use crate::addr::{type_bits, type_code, EndpointAddress, EndpointType, UsbDirection};
use crate::error::UsbError;
use crate::regs::UsbRegs;
use crate::size::{bucket_bytes, code_bytes, code_to_bytes, size_code, size_to_code};

verus! {

/// A handle on one endpoint address that the shared selector register does
/// not (or not necessarily) name: only selection, which writes the selector,
/// turns it into a [`SelectedEp`] on which the endpoint-indexed registers
/// may be touched.
pub struct Endpoint {
    address: EndpointAddress,
}

impl Endpoint {
    pub closed spec fn addr(self) -> EndpointAddress {
        self.address
    }

    /// Validates the address before anything touches a register: indices 0
    /// through 6 name the seven hardware endpoints of this peripheral
    /// generation; every other index is rejected.
    pub fn new(address: EndpointAddress) -> (r: Result<Endpoint, UsbError>)
        ensures
            address.is_valid() ==> (r matches Ok(ep) && ep.addr() == address),
            !address.is_valid() ==> r == Err::<Endpoint, UsbError>(UsbError::InvalidEndpoint),
    {
        if address.index <= 6 {
            Ok(Endpoint { address })
        } else {
            Err(UsbError::InvalidEndpoint)
        }
    }

    /// The index value written to the selector register for this endpoint:
    /// the address with its direction bit masked off.
    pub fn as_byte(&self) -> (r: u8)
        ensures
            r == self.addr().index,
    {
        self.address.index
    }

    /// Writes the endpoint index into the shared selector register (UENUM),
    /// consuming the unselected handle. This is the single point where the
    /// peripheral-wide "current endpoint" context changes: from here on,
    /// every endpoint-indexed register refers to this endpoint until another
    /// selection overwrites the selector. Each selected-only operation
    /// therefore requires that the selector still names its endpoint, so no
    /// operation can slip in after a different selection.
    pub fn select(self, usb: &mut UsbRegs) -> (r: SelectedEp)
        ensures
            r.addr() == self.addr(),
            final(usb).uenum == self.addr().index,
            final(usb).eps@ == old(usb).eps@,
            final(usb).same_globals(*old(usb)),
    {
        usb.uenum = self.address.index;
        SelectedEp { address: self.address }
    }
}

/// A handle on the endpoint the selector register currently names. All
/// operations on endpoint-indexed registers live here, and each requires
/// that the selector still names this endpoint: a handle that outlives a
/// re-selection is unusable, by contract rather than by accident.
pub struct SelectedEp {
    address: EndpointAddress,
}

impl SelectedEp {
    pub closed spec fn addr(self) -> EndpointAddress {
        self.address
    }

    /// The endpoint's index as a spec-level sequence position.
    pub open spec fn idx(self) -> int {
        self.addr().index as int
    }

    /// Contract shorthand: the selector names this endpoint and the index
    /// lies inside the register block.
    pub open spec fn selected_in(self, usb: UsbRegs) -> bool {
        &&& usb.wf()
        &&& usb.uenum == self.addr().index
        &&& self.addr().is_valid()
    }

    pub fn index(&self) -> (r: u8)
        ensures
            r == self.addr().index,
    {
        self.address.index
    }

    /// Sets the endpoint-enable bit (UECONX.EPEN).
    pub fn enable(&self, usb: &mut UsbRegs)
        requires
            self.selected_in(*old(usb)),
        ensures
            final(usb).uenum == old(usb).uenum,
            final(usb).same_globals(*old(usb)),
            final(usb).same_eps_except(*old(usb), self.idx()),
            final(usb).eps@[self.idx()].epen == true,
            final(usb).eps@[self.idx()].stallrq == old(usb).eps@[self.idx()].stallrq,
            final(usb).eps@[self.idx()].same_cfg(old(usb).eps@[self.idx()]),
            final(usb).eps@[self.idx()].same_bank(old(usb).eps@[self.idx()]),
    {
        let i = self.address.index as usize;
        let e = &mut usb.eps[i];
        e.epen = true;
    }

    /// Clears the endpoint-enable bit (UECONX.EPEN).
    pub fn disable(&self, usb: &mut UsbRegs)
        requires
            self.selected_in(*old(usb)),
        ensures
            final(usb).uenum == old(usb).uenum,
            final(usb).same_globals(*old(usb)),
            final(usb).same_eps_except(*old(usb), self.idx()),
            final(usb).eps@[self.idx()].epen == false,
            final(usb).eps@[self.idx()].stallrq == old(usb).eps@[self.idx()].stallrq,
            final(usb).eps@[self.idx()].same_cfg(old(usb).eps@[self.idx()]),
            final(usb).eps@[self.idx()].same_bank(old(usb).eps@[self.idx()]),
    {
        let i = self.address.index as usize;
        let e = &mut usb.eps[i];
        e.epen = false;
    }

    /// Reads the endpoint-enable bit.
    pub fn is_enabled(&self, usb: &UsbRegs) -> (r: bool)
        requires
            self.selected_in(*usb),
        ensures
            r == usb.eps@[self.idx()].epen,
    {
        usb.eps[self.address.index as usize].epen
    }

    /// Sets the FIFO-allocate bit (UECFG1X.ALLOC), reserving the configured
    /// buffer out of the shared FIFO pool. The hardware recomputes its
    /// configuration-validity flag and rebuilds the bank.
    pub fn allocate(&self, usb: &mut UsbRegs)
        requires
            self.selected_in(*old(usb)),
        ensures
            final(usb).uenum == old(usb).uenum,
            final(usb).same_globals(*old(usb)),
            final(usb).same_eps_except(*old(usb), self.idx()),
            final(usb).eps@[self.idx()].same_ctl(old(usb).eps@[self.idx()]),
            final(usb).eps@[self.idx()].epdir_in == old(usb).eps@[self.idx()].epdir_in,
            final(usb).eps@[self.idx()].eptype == old(usb).eps@[self.idx()].eptype,
            final(usb).eps@[self.idx()].epsize == old(usb).eps@[self.idx()].epsize,
            final(usb).eps@[self.idx()].alloc == true,
            final(usb).eps@[self.idx()].cfgok == (old(usb).eps@[self.idx()].epsize <= 6),
            final(usb).eps@[self.idx()].bank_rebuilt(),
    {
        let i = self.address.index as usize;
        let e = &mut usb.eps[i];
        e.alloc = true;
        e.cfgok = e.epsize <= 6;
        e.fifo = Vec::new();
        e.rxouti = false;
        e.txini = e.epdir_in;
        e.fifocon = e.epdir_in;
    }

    /// Clears the FIFO-allocate bit, returning the endpoint's buffer to the
    /// shared pool; the configuration is no longer valid and the bank is
    /// gone.
    pub fn dealloc(&self, usb: &mut UsbRegs)
        requires
            self.selected_in(*old(usb)),
        ensures
            final(usb).uenum == old(usb).uenum,
            final(usb).same_globals(*old(usb)),
            final(usb).same_eps_except(*old(usb), self.idx()),
            final(usb).eps@[self.idx()].same_ctl(old(usb).eps@[self.idx()]),
            final(usb).eps@[self.idx()].epdir_in == old(usb).eps@[self.idx()].epdir_in,
            final(usb).eps@[self.idx()].eptype == old(usb).eps@[self.idx()].eptype,
            final(usb).eps@[self.idx()].epsize == old(usb).eps@[self.idx()].epsize,
            final(usb).eps@[self.idx()].alloc == false,
            final(usb).eps@[self.idx()].cfgok == false,
            final(usb).eps@[self.idx()].fifo@.len() == 0,
            final(usb).eps@[self.idx()].rxouti == false,
            final(usb).eps@[self.idx()].txini == false,
            final(usb).eps@[self.idx()].fifocon == false,
    {
        let i = self.address.index as usize;
        let e = &mut usb.eps[i];
        e.alloc = false;
        e.cfgok = false;
        e.fifo = Vec::new();
        e.rxouti = false;
        e.txini = false;
        e.fifocon = false;
    }

    /// Reads the FIFO-allocate bit.
    pub fn is_alloced(&self, usb: &UsbRegs) -> (r: bool)
        requires
            self.selected_in(*usb),
        ensures
            r == usb.eps@[self.idx()].alloc,
    {
        usb.eps[self.address.index as usize].alloc
    }

    /// Writes the direction bit of the endpoint configuration register
    /// (UECFG0X.EPDIR).
    pub fn set_direction(&self, usb: &mut UsbRegs, direction: UsbDirection)
        requires
            self.selected_in(*old(usb)),
        ensures
            final(usb).uenum == old(usb).uenum,
            final(usb).same_globals(*old(usb)),
            final(usb).same_eps_except(*old(usb), self.idx()),
            final(usb).eps@[self.idx()].same_ctl(old(usb).eps@[self.idx()]),
            final(usb).eps@[self.idx()].same_bank(old(usb).eps@[self.idx()]),
            final(usb).eps@[self.idx()].epdir_in == (direction == UsbDirection::In),
            final(usb).eps@[self.idx()].eptype == old(usb).eps@[self.idx()].eptype,
            final(usb).eps@[self.idx()].alloc == old(usb).eps@[self.idx()].alloc,
            final(usb).eps@[self.idx()].epsize == old(usb).eps@[self.idx()].epsize,
            final(usb).eps@[self.idx()].cfgok == old(usb).eps@[self.idx()].cfgok,
    {
        let i = self.address.index as usize;
        let e = &mut usb.eps[i];
        e.epdir_in = match direction {
            UsbDirection::In => true,
            UsbDirection::Out => false,
        };
    }

    /// Writes the transfer-type field (UECFG0X.EPTYPE).
    pub fn set_typ(&self, usb: &mut UsbRegs, typ: EndpointType)
        requires
            self.selected_in(*old(usb)),
        ensures
            final(usb).uenum == old(usb).uenum,
            final(usb).same_globals(*old(usb)),
            final(usb).same_eps_except(*old(usb), self.idx()),
            final(usb).eps@[self.idx()].same_ctl(old(usb).eps@[self.idx()]),
            final(usb).eps@[self.idx()].same_bank(old(usb).eps@[self.idx()]),
            final(usb).eps@[self.idx()].eptype == type_bits(typ),
            final(usb).eps@[self.idx()].epdir_in == old(usb).eps@[self.idx()].epdir_in,
            final(usb).eps@[self.idx()].alloc == old(usb).eps@[self.idx()].alloc,
            final(usb).eps@[self.idx()].epsize == old(usb).eps@[self.idx()].epsize,
            final(usb).eps@[self.idx()].cfgok == old(usb).eps@[self.idx()].cfgok,
    {
        let i = self.address.index as usize;
        let code = type_code(typ);
        let e = &mut usb.eps[i];
        e.eptype = code;
    }

    /// Maps the requested max-packet size to its hardware bucket and writes
    /// the size code and the allocate bit together in one register write
    /// (UECFG1X). A request beyond the largest bucket is rejected before
    /// anything is written. On success the hardware accepts the
    /// configuration and rebuilds the bank.
    pub fn set_size(&self, usb: &mut UsbRegs, size: u16) -> (r: Result<(), UsbError>)
        requires
            self.selected_in(*old(usb)),
        ensures
            final(usb).uenum == old(usb).uenum,
            final(usb).same_globals(*old(usb)),
            size > 512 ==> r == Err::<(), UsbError>(UsbError::EndpointMemoryOverflow)
                && final(usb).eps@ == old(usb).eps@,
            size <= 512 ==> r == Ok::<(), UsbError>(())
                && final(usb).same_eps_except(*old(usb), self.idx())
                && final(usb).eps@[self.idx()].same_ctl(old(usb).eps@[self.idx()])
                && final(usb).eps@[self.idx()].epdir_in == old(usb).eps@[self.idx()].epdir_in
                && final(usb).eps@[self.idx()].eptype == old(usb).eps@[self.idx()].eptype
                && final(usb).eps@[self.idx()].epsize == size_code(size)
                && final(usb).eps@[self.idx()].alloc == true
                && final(usb).eps@[self.idx()].cfgok == true
                && final(usb).eps@[self.idx()].bank_rebuilt(),
    {
        let code = match size_to_code(size) {
            Ok(c) => c,
            Err(e) => {
                return Err(e);
            },
        };
        let i = self.address.index as usize;
        let e = &mut usb.eps[i];
        e.epsize = code;
        e.alloc = true;
        e.cfgok = true;
        e.fifo = Vec::new();
        e.rxouti = false;
        e.txini = e.epdir_in;
        e.fifocon = e.epdir_in;
        Ok(())
    }

    /// Reads the stored bucket code back as a byte count. An unrecognized
    /// code is rejected — defensive, since only `set_size` ever writes it.
    pub fn get_size(&self, usb: &UsbRegs) -> (r: Result<u16, UsbError>)
        requires
            self.selected_in(*usb),
        ensures
            usb.eps@[self.idx()].epsize <= 6 ==> r == Ok::<u16, UsbError>(
                code_bytes(usb.eps@[self.idx()].epsize),
            ),
            usb.eps@[self.idx()].epsize > 6 ==> r == Err::<u16, UsbError>(
                UsbError::EndpointMemoryOverflow,
            ),
    {
        code_to_bytes(usb.eps[self.address.index as usize].epsize)
    }

    /// Reads the hardware's configuration-validity flag (UESTA0X.CFGOK),
    /// the acceptance test after an endpoint configuration.
    pub fn is_cfg_ok(&self, usb: &UsbRegs) -> (r: bool)
        requires
            self.selected_in(*usb),
        ensures
            r == usb.eps@[self.idx()].cfgok,
    {
        usb.eps[self.address.index as usize].cfgok
    }

    /// Reads the stall-request bit (UECONX.STALLRQ).
    pub fn is_stalled(&self, usb: &UsbRegs) -> (r: bool)
        requires
            self.selected_in(*usb),
        ensures
            r == usb.eps@[self.idx()].stallrq,
    {
        usb.eps[self.address.index as usize].stallrq
    }

    /// Requests or clears a stall. Stalling sets UECONX.STALLRQ directly;
    /// clearing sets the hardware's separate stall-request-clear bit
    /// (UECONX.STALLRQC), whose effect is that the request bit drops.
    pub fn set_stalled(&self, usb: &mut UsbRegs, stalled: bool)
        requires
            self.selected_in(*old(usb)),
        ensures
            final(usb).uenum == old(usb).uenum,
            final(usb).same_globals(*old(usb)),
            final(usb).same_eps_except(*old(usb), self.idx()),
            final(usb).eps@[self.idx()].stallrq == stalled,
            final(usb).eps@[self.idx()].epen == old(usb).eps@[self.idx()].epen,
            final(usb).eps@[self.idx()].same_cfg(old(usb).eps@[self.idx()]),
            final(usb).eps@[self.idx()].same_bank(old(usb).eps@[self.idx()]),
    {
        let i = self.address.index as usize;
        let e = &mut usb.eps[i];
        e.stallrq = stalled;
    }

    /// Reads the "OUT data received" flag (UEINTX.RXOUTI), which gates
    /// whether a read attempt would succeed.
    pub fn can_read(&self, usb: &UsbRegs) -> (r: bool)
        requires
            self.selected_in(*usb),
        ensures
            r == usb.eps@[self.idx()].rxouti,
    {
        usb.eps[self.address.index as usize].rxouti
    }

    /// Reads the "IN bank ready" flag (UEINTX.TXINI), which gates whether a
    /// write attempt would succeed.
    pub fn can_write(&self, usb: &UsbRegs) -> (r: bool)
        requires
            self.selected_in(*usb),
        ensures
            r == usb.eps@[self.idx()].txini,
    {
        usb.eps[self.address.index as usize].txini
    }

    /// Clears the received flag, copies bytes out of the data register one
    /// at a time while bytes remain and the caller's buffer has capacity,
    /// then releases the bank by clearing the FIFO-advance bit; unread bytes
    /// go with the bank. Returns the count actually copied, which may be
    /// less than the buffer's capacity if the bank held fewer bytes.
    pub fn read(&self, usb: &mut UsbRegs, buf: &mut Vec<u8>) -> (r: Result<usize, UsbError>)
        requires
            self.selected_in(*old(usb)),
        ensures
            final(usb).uenum == old(usb).uenum,
            final(usb).same_globals(*old(usb)),
            final(usb).same_eps_except(*old(usb), self.idx()),
            final(buf)@.len() == old(buf)@.len(),
            ({
                let o = old(usb).eps@[self.idx()];
                let e = final(usb).eps@[self.idx()];
                let n = if old(buf)@.len() <= o.fifo@.len() {
                    old(buf)@.len() as int
                } else {
                    o.fifo@.len() as int
                };
                &&& r == Ok::<usize, UsbError>(n as usize)
                &&& n <= old(buf)@.len()
                &&& n <= o.fifo@.len()
                &&& (o.fifo@.len() <= code_bytes(o.epsize) as nat ==> n <= code_bytes(o.epsize) as int)
                &&& forall|k: int| 0 <= k < n ==> final(buf)@[k] == o.fifo@[k]
                &&& forall|k: int| n <= k < old(buf)@.len() ==> final(buf)@[k] == old(buf)@[k]
                &&& e.same_ctl(o)
                &&& e.same_cfg(o)
                &&& e.fifo@.len() == 0
                &&& e.rxouti == false
                &&& e.txini == o.txini
                &&& e.fifocon == false
            }),
    {
        let i = self.address.index as usize;
        let mut e = usb.eps.remove(i);
        let ghost e0 = e;
        let ghost fifo0 = e.fifo@;
        let ghost buf0 = buf@;
        e.rxouti = false;
        let mut n: usize = 0;
        while e.fifo.len() > 0 && n < buf.len()
            invariant
                n <= buf0.len(),
                buf@.len() == buf0.len(),
                n + e.fifo@.len() == fifo0.len(),
                e.fifo@ == fifo0.skip(n as int),
                forall|k: int| 0 <= k < n ==> buf@[k] == fifo0[k],
                forall|k: int| n <= k < buf0.len() ==> buf@[k] == buf0[k],
                e.epen == e0.epen,
                e.stallrq == e0.stallrq,
                e.same_cfg(e0),
                e.txini == e0.txini,
                e.fifocon == e0.fifocon,
                e.rxouti == false,
            decreases e.fifo@.len(),
        {
            let b = e.fifo.remove(0);
            proof {
                assert(e.fifo@ =~= fifo0.skip(n as int + 1));
            }
            buf[n] = b;
            n = n + 1;
        }
        e.fifo = Vec::new();
        e.fifocon = false;
        usb.eps.insert(i, e);
        proof {
            assert(usb.eps@ =~= old(usb).eps@.update(i as int, usb.eps@[i as int]));
        }
        Ok(n)
    }

    /// Clears the ready flag, copies bytes into the data register one at a
    /// time while the bank has room and input remains, then signals FIFO
    /// advance. Returns the count actually written, which may be less than
    /// the input if the bank fills first.
    #[verifier::rlimit(60)]
    pub fn write(&self, usb: &mut UsbRegs, buf: &Vec<u8>) -> (r: Result<usize, UsbError>)
        requires
            self.selected_in(*old(usb)),
            old(usb).eps@[self.idx()].epsize <= 6,
        ensures
            final(usb).uenum == old(usb).uenum,
            final(usb).same_globals(*old(usb)),
            final(usb).same_eps_except(*old(usb), self.idx()),
            ({
                let o = old(usb).eps@[self.idx()];
                let e = final(usb).eps@[self.idx()];
                let cap = code_bytes(o.epsize) as int;
                let room = if o.fifo@.len() <= cap { cap - o.fifo@.len() } else { 0 };
                let n = if buf@.len() <= room { buf@.len() as int } else { room };
                &&& r == Ok::<usize, UsbError>(n as usize)
                &&& n <= buf@.len()
                &&& n <= cap
                &&& n <= room
                &&& e.fifo@ == o.fifo@ + buf@.take(n)
                &&& e.same_ctl(o)
                &&& e.same_cfg(o)
                &&& e.rxouti == o.rxouti
                &&& e.txini == false
                &&& e.fifocon == false
            }),
    {
        let i = self.address.index as usize;
        let mut e = usb.eps.remove(i);
        let ghost e0 = e;
        let ghost fifo0 = e.fifo@;
        e.txini = false;
        let cap = bucket_bytes(e.epsize) as usize;
        let mut n: usize = 0;
        while e.fifo.len() < cap && n < buf.len()
            invariant
                cap == code_bytes(e0.epsize) as int,
                n <= buf@.len(),
                e.fifo@ == fifo0 + buf@.take(n as int),
                n == 0 || fifo0.len() + n <= cap,
                e.epen == e0.epen,
                e.stallrq == e0.stallrq,
                e.same_cfg(e0),
                e.rxouti == e0.rxouti,
                e.fifocon == e0.fifocon,
                e.txini == false,
            decreases buf@.len() - n,
        {
            let b = buf[n];
            e.fifo.push(b);
            proof {
                assert(e.fifo@ =~= fifo0 + buf@.take(n as int + 1));
            }
            n = n + 1;
        }
        e.fifocon = false;
        usb.eps.insert(i, e);
        proof {
            assert(usb.eps@ =~= old(usb).eps@.update(i as int, usb.eps@[i as int]));
        }
        Ok(n)
    }
}

} // verus!
