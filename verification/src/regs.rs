use vstd::prelude::*;

use crate::size::code_bytes;

verus! {

/// One endpoint's register window — the endpoint-indexed registers that the
/// shared selector makes addressable — together with the endpoint's FIFO
/// bank. Field names follow the hardware's register and bit names.
///
/// The hardware-computed pieces are part of the model's semantics rather
/// than anything the driver writes directly: `cfgok` is recomputed on every
/// write of the allocation register, and the read/write-allowed flag is the
/// derived [`EpRegs::rwal`].
pub struct EpRegs {
    /// UECONX.EPEN: endpoint enable.
    pub epen: bool,
    /// UECONX.STALLRQ: stall requested. Set directly; cleared by setting the
    /// hardware's separate stall-request-clear bit, whose modeled effect is
    /// clearing this flag.
    pub stallrq: bool,
    /// UECFG0X.EPDIR: direction, true for IN (device to host).
    pub epdir_in: bool,
    /// UECFG0X.EPTYPE: the two-bit transfer-type code.
    pub eptype: u8,
    /// UECFG1X.ALLOC: FIFO memory reserved for this endpoint.
    pub alloc: bool,
    /// UECFG1X.EPSIZE: the three-bit size-bucket code.
    pub epsize: u8,
    /// UESTA0X.CFGOK: the hardware's configuration-validity flag. The model
    /// treats the shared FIFO pool as able to satisfy any single well-formed
    /// configuration: the flag holds exactly when memory is allocated under
    /// a recognized size code.
    pub cfgok: bool,
    /// UEINTX.RXOUTI: OUT data received, ready to be read.
    pub rxouti: bool,
    /// UEINTX.TXINI: IN bank free, ready to be written.
    pub txini: bool,
    /// UEINTX.FIFOCON: the FIFO-advance control bit; clearing it hands the
    /// current bank back to the hardware.
    pub fifocon: bool,
    /// The bytes currently in the endpoint's bank.
    pub fifo: Vec<u8>,
}

impl EpRegs {
    /// UEINTX.RWAL as the hardware computes it: for an IN endpoint the bank
    /// still has room, for an OUT endpoint bytes remain to be read.
    pub open spec fn rwal(self) -> bool {
        if self.epdir_in {
            self.fifo@.len() < code_bytes(self.epsize) as nat
        } else {
            self.fifo@.len() > 0
        }
    }

    /// The power-on reset state of an endpoint window.
    pub open spec fn is_reset(self) -> bool {
        &&& self.epen == false
        &&& self.stallrq == false
        &&& self.epdir_in == false
        &&& self.eptype == 0
        &&& self.alloc == false
        &&& self.epsize == 0
        &&& self.cfgok == false
        &&& self.rxouti == false
        &&& self.txini == false
        &&& self.fifocon == false
        &&& self.fifo@.len() == 0
    }

    /// The control bits (UECONX) agree.
    pub open spec fn same_ctl(self, o: EpRegs) -> bool {
        self.epen == o.epen && self.stallrq == o.stallrq
    }

    /// The configuration registers (UECFG0X, UECFG1X, UESTA0X) agree.
    pub open spec fn same_cfg(self, o: EpRegs) -> bool {
        &&& self.epdir_in == o.epdir_in
        &&& self.eptype == o.eptype
        &&& self.alloc == o.alloc
        &&& self.epsize == o.epsize
        &&& self.cfgok == o.cfgok
    }

    /// The bank state (UEINTX flags and FIFO contents) agrees.
    pub open spec fn same_bank(self, o: EpRegs) -> bool {
        &&& self.rxouti == o.rxouti
        &&& self.txini == o.txini
        &&& self.fifocon == o.fifocon
        &&& self.fifo@ == o.fifo@
    }

    /// The bank state right after the FIFO allocator has (re)built the bank:
    /// empty, with an IN bank immediately ready to be written and an OUT
    /// bank waiting for the host.
    pub open spec fn bank_rebuilt(self) -> bool {
        &&& self.fifo@.len() == 0
        &&& self.rxouti == false
        &&& self.txini == self.epdir_in
        &&& self.fifocon == self.epdir_in
    }

    pub fn new_reset() -> (r: EpRegs)
        ensures
            r.is_reset(),
    {
        EpRegs {
            epen: false,
            stallrq: false,
            epdir_in: false,
            eptype: 0,
            alloc: false,
            epsize: 0,
            cfgok: false,
            rxouti: false,
            txini: false,
            fifocon: false,
            fifo: Vec::new(),
        }
    }
}

/// The USB controller register block: the device-wide registers plus the
/// seven endpoint windows reached through the shared selector.
pub struct UsbRegs {
    /// UHWCON.UVREGE: USB pad-regulator enable.
    pub uvrege: bool,
    /// USBCON.USBE: USB interface enable.
    pub usbe: bool,
    /// USBCON.FRZCLK: USB clock frozen.
    pub frzclk: bool,
    /// UDADDR.UADD: the 7-bit device address assigned during enumeration.
    pub uadd: u8,
    /// UDADDR.ADDEN: device address enabled; set only after the address
    /// value has been latched.
    pub adden: bool,
    /// UDINT.SUSPI: suspend interrupt flag.
    pub suspi: bool,
    /// UDIEN.WAKEUPE: wake-up interrupt enable.
    pub wakeupe: bool,
    /// UENUM: the single shared endpoint selector. Every endpoint-indexed
    /// register refers to the endpoint this names, until a different
    /// selection overwrites it.
    pub uenum: u8,
    /// The seven endpoint windows, indexed by the selector value.
    pub eps: Vec<EpRegs>,
}

impl UsbRegs {
    /// The register block models this peripheral generation: exactly seven
    /// endpoints.
    pub open spec fn wf(self) -> bool {
        self.eps@.len() == 7
    }

    /// The device-wide registers (everything outside the selector and the
    /// endpoint windows) agree.
    pub open spec fn same_globals(self, o: UsbRegs) -> bool {
        &&& self.uvrege == o.uvrege
        &&& self.usbe == o.usbe
        &&& self.frzclk == o.frzclk
        &&& self.uadd == o.uadd
        &&& self.adden == o.adden
        &&& self.suspi == o.suspi
        &&& self.wakeupe == o.wakeupe
    }

    /// All endpoint windows but the one at `i` agree.
    pub open spec fn same_eps_except(self, o: UsbRegs, i: int) -> bool {
        &&& self.eps@.len() == o.eps@.len()
        &&& forall|j: int|
            0 <= j < self.eps@.len() && j != i ==> self.eps@[j] == o.eps@[j]
    }

    /// The power-on reset state of the whole block.
    pub fn new_reset() -> (r: UsbRegs)
        ensures
            r.wf(),
            r.uvrege == false,
            r.usbe == false,
            r.frzclk == false,
            r.uadd == 0,
            r.adden == false,
            r.suspi == false,
            r.wakeupe == false,
            r.uenum == 0,
            forall|j: int| 0 <= j < 7 ==> r.eps@[j].is_reset(),
    {
        let mut eps: Vec<EpRegs> = Vec::new();
        while eps.len() < 7
            invariant
                eps@.len() <= 7,
                forall|j: int| 0 <= j < eps@.len() ==> eps@[j].is_reset(),
            decreases 7 - eps.len(),
        {
            eps.push(EpRegs::new_reset());
        }
        UsbRegs {
            uvrege: false,
            usbe: false,
            frzclk: false,
            uadd: 0,
            adden: false,
            suspi: false,
            wakeupe: false,
            uenum: 0,
            eps,
        }
    }
}

/// The PLL control register block.
pub struct PllRegs {
    /// PLLCSR.PLLE: PLL enable.
    pub plle: bool,
    /// PLLCSR.PLOCK: the hardware-reported lock flag. In this model the
    /// flag follows the enable bit, standing for the hardware's documented
    /// bounded lock latency: by the time the driver's lock poll reads it,
    /// an enabled PLL reports locked and a disabled one does not.
    pub plock: bool,
}

impl PllRegs {
    pub fn new_reset() -> (r: PllRegs)
        ensures
            r.plle == false,
            r.plock == false,
    {
        PllRegs { plle: false, plock: false }
    }

    /// Writes PLLCSR.PLLE; the lock flag follows, as the model of the
    /// hardware's lock behaviour.
    pub fn set_plle(&mut self, on: bool)
        ensures
            final(self).plle == on,
            final(self).plock == on,
    {
        self.plle = on;
        self.plock = on;
    }
}

} // verus!
