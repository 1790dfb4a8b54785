//! The USART handle and its configuration-state protocol.
//!
//! A `USART<Disabled>` can only be enabled; a `USART<Enabled<W, Mode>>` can
//! transfer words, report flags, mask interrupts, and be disabled. A call
//! that its state does not offer does not type-check.
use core::marker::PhantomData;
use vstd::prelude::*;

use crate::clock::{Clock, ClockSource};
use crate::flags::{Flag, Interrupts};
use crate::instances::Instance;
use crate::registers::Registers;
use crate::rx::{self, RxError};
use crate::clock::{bit_rate, fits_baudrate, lemma_baudrate_round_trip, FRO_HZ};
use crate::settings::{line_format, Settings};
use crate::state::{AsyncMode, Disabled, Enabled, SyncMode, Word};
use crate::syscon::{Handle, INSTANCES};
use crate::tx;

verus! {

/// CFG: peripheral enable
pub const CFG_ENABLE: u32 = 0x1;
/// CFG: hardware flow control (CTS)
pub const CFG_CTSEN: u32 = 0x200;
/// CFG: synchronous mode
pub const CFG_SYNCEN: u32 = 0x800;
/// CFG: synchronous master
pub const CFG_SYNCMST: u32 = 0x4000;
/// CFG: loopback
pub const CFG_LOOP: u32 = 0x8000;
/// CFG: automatic address matching
pub const CFG_AUTOADDR: u32 = 0x80000;

/// CTL: send a break
pub const CTL_TXBRKEN: u32 = 0x2;
/// CTL: address detect
pub const CTL_ADDRDET: u32 = 0x4;
/// CTL: transmitter disabled
pub const CTL_TXDIS: u32 = 0x40;
/// CTL: continuous clock
pub const CTL_CC: u32 = 0x100;
/// CTL: autobaud
pub const CTL_AUTOBAUD: u32 = 0x10000;

/// The CTL bits that enabling sets up.
pub const CTL_CONFIGURED: u32 = 0x10146;

/// The CFG mode bits of asynchronous mode.
pub const MODE_ASYNC: u32 = 0;
/// The CFG mode bits of synchronous master mode.
pub const MODE_SYNC_MASTER: u32 = 0x4800;
/// The CFG mode bits of synchronous slave mode.
pub const MODE_SYNC_SLAVE: u32 = 0x800;

/// CFG with the settings that every mode shares: enabled, no flow control,
/// no loopback, automatic address matching.
pub open spec fn general_config(cfg: u32) -> u32 {
    (cfg | CFG_ENABLE | CFG_AUTOADDR) & !(CFG_CTSEN | CFG_LOOP)
}

/// CFG as enabling writes it, from the mode bits and the line-format bits.
pub open spec fn cfg_value(mode: u32, line: u32) -> u32 {
    general_config(mode | line)
}

/// CTL as enabling leaves it: no break, no address detection, transmitter
/// on, continuous clock, no autobaud; other bits kept.
pub open spec fn ctl_configured(ctl: u32) -> u32 {
    (ctl & !CTL_CONFIGURED) | CTL_CC
}

/// The instance after enabling it in mode `mode` with divisor `brg`,
/// oversample `osr` and line format `line`.
pub open spec fn configured(inst: Instance, mode: u32, brg: u32, osr: u32, line: u32) -> Instance {
    Instance {
        regs: Registers {
            cfg: cfg_value(mode, line),
            ctl: ctl_configured(inst.regs.ctl),
            brg,
            osr,
            ..inst.regs
        },
        ..inst
    }
}

/// `after` is `before` with instance `n`'s clock started from `source`.
pub open spec fn clock_started(before: Handle, after: Handle, n: usize, source: u32) -> bool {
    &&& after.wf()
    &&& after.enabled@ == before.enabled@.update(n as int, true)
    &&& after.fclksel@ == before.fclksel@.update(n as int, source)
}

/// `inst` with its register block replaced by `regs`.
pub open spec fn with_regs(inst: Instance, regs: Registers) -> Instance {
    Instance { regs, ..inst }
}

/// Interface to one USART instance, in configuration state `State`.
pub struct USART<State> {
    usart: Instance,
    _state: PhantomData<State>,
}

impl<State> USART<State> {
    /// The hardware the handle owns.
    pub closed spec fn spec_instance(&self) -> Instance {
        self.usart
    }

    #[verifier::type_invariant]
    spec fn inv(&self) -> bool {
        self.usart.number < INSTANCES
    }

    /// Give up the handle and return the hardware it owned.
    pub fn free(self) -> (r: Instance)
        ensures
            r == self.spec_instance(),
            r.number < INSTANCES,
    {
        proof {
            use_type_invariant(&self);
        }
        self.usart
    }

    /// The register block, for inspection.
    pub fn registers(&self) -> (r: &Registers)
        ensures
            *r == self.spec_instance().regs,
    {
        &self.usart.regs
    }
}

impl USART<Disabled> {
    /// Take ownership of instance `usart`, disabled.
    pub fn new(usart: Instance) -> (r: Self)
        requires
            usart.number < INSTANCES,
        ensures
            r.spec_instance() == usart,
    {
        USART { usart, _state: PhantomData }
    }

    /// Start the clock, select its source, and set up CTL.
    fn configure<C: ClockSource>(&mut self, syscon: &mut Handle)
        requires
            old(syscon).wf(),
        ensures
            clock_started(
                *old(syscon),
                *final(syscon),
                old(self).spec_instance().number,
                C::spec_selector(),
            ),
            final(self).spec_instance() == with_regs(
                old(self).spec_instance(),
                Registers {
                    ctl: ctl_configured(old(self).spec_instance().regs.ctl),
                    ..old(self).spec_instance().regs
                },
            ),
    {
        proof {
            use_type_invariant(&*self);
        }
        let n = self.usart.number;
        syscon.enable_clock(n);
        C::select(n, syscon);
        self.usart.regs.ctl = (self.usart.regs.ctl & !CTL_CONFIGURED) | CTL_CC;
    }

    /// CFG with the settings that every mode shares.
    fn apply_general_config(cfg: u32) -> (r: u32)
        ensures
            r == general_config(cfg),
    {
        (cfg | CFG_ENABLE | CFG_AUTOADDR) & !(CFG_CTSEN | CFG_LOOP)
    }

    /// Enable the instance in asynchronous mode: no clock signal on the
    /// line. `_rx` and `_tx` attest that its RX and TX signals are routed to
    /// pins. The baud-rate generator gets `clock`'s divisor and oversample
    /// values, CFG the line format of `settings`.
    pub fn enable_async<RxPin, TxPin, C: ClockSource, W: Word>(
        self,
        clock: &Clock<C, AsyncMode>,
        syscon: &mut Handle,
        _rx: RxPin,
        _tx: TxPin,
        settings: Settings<W>,
    ) -> (r: USART<Enabled<W, AsyncMode>>)
        requires
            old(syscon).wf(),
        ensures
            clock_started(*old(syscon), *final(syscon), self.spec_instance().number, C::spec_selector()),
            r.spec_instance() == configured(
                self.spec_instance(),
                MODE_ASYNC,
                clock.spec_brgval() as u32,
                clock.spec_osrval() as u32,
                settings.spec_bits(),
            ),
    {
        let mut this = self;
        this.configure::<C>(syscon);
        proof {
            use_type_invariant(&this);
        }
        this.usart.regs.brg = clock.brgval() as u32;
        this.usart.regs.osr = clock.osrval() as u32;
        this.usart.regs.cfg = Self::apply_general_config(MODE_ASYNC | settings.bits());
        USART { usart: this.usart, _state: PhantomData }
    }

    /// Enable the instance in synchronous mode as master: it drives the
    /// clock signal. `_rx`, `_tx` and `_sclk` attest that its RX, TX and SCLK
    /// signals are routed to pins. The baud-rate generator gets `clock`'s
    /// divisor; oversampling does not apply.
    pub fn enable_sync_as_master<RxPin, TxPin, SclkPin, C: ClockSource, W: Word>(
        self,
        clock: &Clock<C, SyncMode>,
        syscon: &mut Handle,
        _rx: RxPin,
        _tx: TxPin,
        _sclk: SclkPin,
        settings: Settings<W>,
    ) -> (r: USART<Enabled<W, SyncMode>>)
        requires
            old(syscon).wf(),
        ensures
            clock_started(*old(syscon), *final(syscon), self.spec_instance().number, C::spec_selector()),
            r.spec_instance() == configured(
                self.spec_instance(),
                MODE_SYNC_MASTER,
                clock.spec_brgval() as u32,
                self.spec_instance().regs.osr,
                settings.spec_bits(),
            ),
    {
        let mut this = self;
        this.configure::<C>(syscon);
        proof {
            use_type_invariant(&this);
        }
        this.usart.regs.brg = clock.brgval() as u32;
        this.usart.regs.cfg = Self::apply_general_config(MODE_SYNC_MASTER | settings.bits());
        USART { usart: this.usart, _state: PhantomData }
    }

    /// Enable the instance in synchronous mode as slave: the clock signal
    /// comes from outside, so the baud-rate generator is left as it is.
    pub fn enable_sync_as_slave<RxPin, TxPin, SclkPin, C: ClockSource, W: Word>(
        self,
        _clock: &C,
        syscon: &mut Handle,
        _rx: RxPin,
        _tx: TxPin,
        _sclk: SclkPin,
        settings: Settings<W>,
    ) -> (r: USART<Enabled<W, SyncMode>>)
        requires
            old(syscon).wf(),
        ensures
            clock_started(*old(syscon), *final(syscon), self.spec_instance().number, C::spec_selector()),
            r.spec_instance() == configured(
                self.spec_instance(),
                MODE_SYNC_SLAVE,
                self.spec_instance().regs.brg,
                self.spec_instance().regs.osr,
                settings.spec_bits(),
            ),
    {
        let mut this = self;
        this.configure::<C>(syscon);
        proof {
            use_type_invariant(&this);
        }
        this.usart.regs.cfg = Self::apply_general_config(MODE_SYNC_SLAVE | settings.bits());
        USART { usart: this.usart, _state: PhantomData }
    }
}

impl<W: Word, Mode> USART<Enabled<W, Mode>> {
    /// Disable the instance: stop its clock and return the disabled handle.
    /// The registers keep what they hold; the next enable rewrites them.
    pub fn disable(self, syscon: &mut Handle) -> (r: USART<Disabled>)
        requires
            old(syscon).wf(),
        ensures
            final(syscon).wf(),
            final(syscon).enabled@ == old(syscon).enabled@.update(
                self.spec_instance().number as int,
                false,
            ),
            final(syscon).fclksel@ == old(syscon).fclksel@,
            r.spec_instance() == self.spec_instance(),
    {
        proof {
            use_type_invariant(&self);
        }
        syscon.disable_clock(self.usart.number);
        USART { usart: self.usart, _state: PhantomData }
    }

    /// Whether `flag` is set in STAT. A flag that software must reset is
    /// cleared once it has been seen set.
    pub fn is_flag_set(&mut self, flag: Flag) -> (r: bool)
        ensures
            r == (old(self).spec_instance().regs.stat & flag.spec_bit() != 0),
            final(self).spec_instance() == with_regs(
                old(self).spec_instance(),
                Registers {
                    stat: if r && flag.spec_needs_reset() {
                        old(self).spec_instance().regs.stat & !flag.spec_bit()
                    } else {
                        old(self).spec_instance().regs.stat
                    },
                    ..old(self).spec_instance().regs
                },
            ),
    {
        proof {
            use_type_invariant(&*self);
        }
        let bit = flag.bit();
        let set = self.usart.regs.stat & bit != 0;
        if set && flag.needs_reset() {
            self.usart.regs.stat = self.usart.regs.stat & !bit;
        }
        set
    }

    /// Unmask this instance's interrupt in the interrupt controller. The
    /// interrupt sources of the instance itself are left as they are.
    pub fn enable_in_nvic(&mut self)
        ensures
            final(self).spec_instance() == (Instance {
                nvic_enabled: true,
                ..old(self).spec_instance()
            }),
    {
        proof {
            use_type_invariant(&*self);
        }
        self.usart.nvic_enabled = true;
    }

    /// Mask this instance's interrupt in the interrupt controller.
    pub fn disable_in_nvic(&mut self)
        ensures
            final(self).spec_instance() == (Instance {
                nvic_enabled: false,
                ..old(self).spec_instance()
            }),
    {
        proof {
            use_type_invariant(&*self);
        }
        self.usart.nvic_enabled = false;
    }

    /// Clear this instance's pending flag in the interrupt controller.
    pub fn clear_nvic_pending(&mut self)
        ensures
            final(self).spec_instance() == (Instance {
                nvic_pending: false,
                ..old(self).spec_instance()
            }),
    {
        proof {
            use_type_invariant(&*self);
        }
        self.usart.nvic_pending = false;
    }

    /// Enable the interrupt sources set in `interrupts`; leave the others.
    pub fn enable_interrupts(&mut self, interrupts: Interrupts)
        ensures
            final(self).spec_instance() == with_regs(
                old(self).spec_instance(),
                Registers {
                    intenset: old(self).spec_instance().regs.intenset | interrupts.spec_mask(),
                    ..old(self).spec_instance().regs
                },
            ),
    {
        proof {
            use_type_invariant(&*self);
        }
        self.usart.regs.intenset = self.usart.regs.intenset | interrupts.mask();
    }

    /// Disable the interrupt sources set in `interrupts`; leave the others.
    pub fn disable_interrupts(&mut self, interrupts: Interrupts)
        ensures
            final(self).spec_instance() == with_regs(
                old(self).spec_instance(),
                Registers {
                    intenset: old(self).spec_instance().regs.intenset & !interrupts.spec_mask(),
                    ..old(self).spec_instance().regs
                },
            ),
    {
        proof {
            use_type_invariant(&*self);
        }
        self.usart.regs.intenset = self.usart.regs.intenset & !interrupts.mask();
    }

    /// Read one word without blocking; see `rx::read`.
    pub fn read(&mut self) -> (r: nb::Result<W, RxError>)
        ensures
            final(self).spec_instance().number == old(self).spec_instance().number,
            final(self).spec_instance().nvic_enabled == old(self).spec_instance().nvic_enabled,
            final(self).spec_instance().nvic_pending == old(self).spec_instance().nvic_pending,
            rx::read_post(old(self).spec_instance().regs, final(self).spec_instance().regs, r),
    {
        proof {
            use_type_invariant(&*self);
        }
        let mut regs = self.usart.regs;
        let r = rx::read(&mut regs);
        self.usart.regs = regs;
        r
    }

    /// Write one word without blocking; see `tx::write`.
    pub fn write(&mut self, word: W) -> (r: nb::Result<(), void::Void>)
        ensures
            final(self).spec_instance().number == old(self).spec_instance().number,
            final(self).spec_instance().nvic_enabled == old(self).spec_instance().nvic_enabled,
            final(self).spec_instance().nvic_pending == old(self).spec_instance().nvic_pending,
            tx::write_post(old(self).spec_instance().regs, final(self).spec_instance().regs, word, r),
    {
        proof {
            use_type_invariant(&*self);
        }
        let mut regs = self.usart.regs;
        let r = tx::write(&mut regs, word);
        self.usart.regs = regs;
        r
    }

    /// Whether every word written has left the shift register; see
    /// `tx::flush`.
    pub fn flush(&mut self) -> (r: nb::Result<(), void::Void>)
        ensures
            *final(self) == *old(self),
            tx::flush_post(old(self).spec_instance().regs, r),
    {
        tx::flush(&self.usart.regs)
    }

    // hardware side
    /// A word arrives on the line; see `Registers::receive`.
    pub fn line_receive(&mut self, word: u32)
        ensures
            final(self).spec_instance() == with_regs(
                old(self).spec_instance(),
                old(self).spec_instance().regs.spec_received(word),
            ),
    {
        proof {
            use_type_invariant(&*self);
        }
        let mut regs = self.usart.regs;
        regs.receive(word);
        self.usart.regs = regs;
    }

    // hardware side
    /// The hardware latches status bits `bits`.
    pub fn line_latch_status(&mut self, bits: u32)
        ensures
            final(self).spec_instance() == with_regs(
                old(self).spec_instance(),
                Registers {
                    stat: old(self).spec_instance().regs.stat | bits,
                    ..old(self).spec_instance().regs
                },
            ),
    {
        proof {
            use_type_invariant(&*self);
        }
        let mut regs = self.usart.regs;
        regs.latch_status(bits);
        self.usart.regs = regs;
    }

    // hardware side
    /// The transmitter shifts the word in TXDAT out; see
    /// `Registers::shift_out`.
    pub fn line_shift_out(&mut self) -> (r: Option<u32>)
        ensures
            final(self).spec_instance() == with_regs(
                old(self).spec_instance(),
                old(self).spec_instance().regs.spec_shifted_out(),
            ),
            r == (if old(self).spec_instance().regs.stat & crate::registers::STAT_TXRDY != 0 {
                None
            } else {
                Some(old(self).spec_instance().regs.txdat)
            }),
    {
        proof {
            use_type_invariant(&*self);
        }
        let mut regs = self.usart.regs;
        let r = regs.shift_out();
        self.usart.regs = regs;
        r
    }
}

/// Whether `mode` is the CFG mode bits of one of the three modes.
pub open spec fn is_mode(mode: u32) -> bool {
    mode == MODE_ASYNC || mode == MODE_SYNC_MASTER || mode == MODE_SYNC_SLAVE
}

/// Enabling writes the line format of its settings, and nothing of an
/// earlier configuration survives it: after enabling `inst` with `first`,
/// disabling (which keeps the registers) and enabling again with `second`,
/// CFG reads back the format of `second`, and holds what enabling `inst`
/// with `second` directly would have written.
pub proof fn lemma_reenable_leaves_no_residue<W1, W2>(
    inst: Instance,
    first_mode: u32,
    first_brg: u32,
    first_osr: u32,
    first: Settings<W1>,
    mode: u32,
    brg: u32,
    osr: u32,
    second: Settings<W2>,
)
    requires
        is_mode(first_mode),
        is_mode(mode),
    ensures
        ({
            let again = configured(
                configured(inst, first_mode, first_brg, first_osr, first.spec_bits()),
                mode,
                brg,
                osr,
                second.spec_bits(),
            );
            &&& line_format(again.regs.cfg) == second.spec_format()
            &&& again.regs.cfg == configured(inst, mode, brg, osr, second.spec_bits()).regs.cfg
            &&& again.regs.cfg & CFG_ENABLE != 0
            &&& (again.regs.cfg & MODE_SYNC_MASTER) == mode
            &&& again.regs.brg == brg && again.regs.osr == osr
        }),
{
    second.lemma_format_fits();
    let d = second.spec_format().0;
    let p = second.spec_format().1;
    let st = second.spec_format().2;
    let c = second.spec_format().3;
    let cfg = cfg_value(mode, second.spec_bits());
    assert(cfg == ((mode | ((d << 2u32) | (p << 4u32) | (st << 6u32) | (c << 12u32))) | 1u32
        | 0x80000u32) & !(0x200u32 | 0x8000u32));
    assert(((cfg >> 2u32) & 3u32) == d && ((cfg >> 4u32) & 3u32) == p && ((cfg >> 6u32) & 1u32)
        == st && ((cfg >> 12u32) & 1u32) == c && cfg & 1u32 != 0 && (cfg & 0x4800u32) == mode)
        by (bit_vector)
        requires
            d <= 3 && p <= 3 && st <= 1 && c <= 1,
            mode == 0u32 || mode == 0x4800u32 || mode == 0x800u32,
            cfg == ((mode | ((d << 2u32) | (p << 4u32) | (st << 6u32) | (c << 12u32))) | 1u32
                | 0x80000u32) & !(0x200u32 | 0x8000u32),
    ;
}

/// The bit rate that asynchronous mode runs at, once enabled with clock
/// settings that fit a target rate from the free-running oscillator, is
/// that target within 5%: at least the target, less than 21/20 of it.
pub proof fn lemma_async_rate_round_trip<W>(
    inst: Instance,
    baudrate: u32,
    brgval: u16,
    osrval: u8,
    settings: Settings<W>,
)
    requires
        baudrate > 0,
        fits_baudrate(FRO_HZ as int, baudrate as int, brgval as int, osrval as int),
    ensures
        ({
            let regs = configured(
                inst,
                MODE_ASYNC,
                brgval as u32,
                osrval as u32,
                settings.spec_bits(),
            ).regs;
            let rate = bit_rate(FRO_HZ as int, regs.brg as int, regs.osr as int);
            baudrate <= rate && 20 * rate < 21 * baudrate
        }),
{
    lemma_baudrate_round_trip(FRO_HZ as int, baudrate as int, brgval as int, osrval as int);
}

/// Enabling one set of interrupt sources and then disabling another set
/// that shares none of them leaves every source of the first set enabled.
pub proof fn lemma_disable_other_interrupts_keeps_enabled(
    intenset: u32,
    enabled: Interrupts,
    disabled: Interrupts,
)
    requires
        enabled.spec_mask() & disabled.spec_mask() == 0,
    ensures
        ((intenset | enabled.spec_mask()) & !disabled.spec_mask()) & enabled.spec_mask()
            == enabled.spec_mask(),
{
    let a = enabled.spec_mask();
    let b = disabled.spec_mask();
    assert(((intenset | a) & !b) & a == a) by (bit_vector)
        requires
            a & b == 0,
    ;
}

/// Two different interrupt sources occupy different bits.
pub proof fn lemma_single_sources_disjoint(a: Interrupts, b: Interrupts)
    requires
        a.spec_mask() != b.spec_mask(),
        a.spec_mask() == 0x1 || a.spec_mask() == 0x4 || a.spec_mask() == 0x8 || a.spec_mask() == 0x20
            || a.spec_mask() == 0x40 || a.spec_mask() == 0x100 || a.spec_mask() == 0x800
            || a.spec_mask() == 0x1000 || a.spec_mask() == 0x2000 || a.spec_mask() == 0x4000
            || a.spec_mask() == 0x8000 || a.spec_mask() == 0x10000,
        b.spec_mask() == 0x1 || b.spec_mask() == 0x4 || b.spec_mask() == 0x8 || b.spec_mask() == 0x20
            || b.spec_mask() == 0x40 || b.spec_mask() == 0x100 || b.spec_mask() == 0x800
            || b.spec_mask() == 0x1000 || b.spec_mask() == 0x2000 || b.spec_mask() == 0x4000
            || b.spec_mask() == 0x8000 || b.spec_mask() == 0x10000,
    ensures
        a.spec_mask() & b.spec_mask() == 0,
{
    let x = a.spec_mask();
    let y = b.spec_mask();
    assert(x & y == 0) by (bit_vector)
        requires
            x != y,
            x == 0x1 || x == 0x4 || x == 0x8 || x == 0x20 || x == 0x40 || x == 0x100 || x == 0x800
                || x == 0x1000 || x == 0x2000 || x == 0x4000 || x == 0x8000 || x == 0x10000,
            y == 0x1 || y == 0x4 || y == 0x8 || y == 0x20 || y == 0x40 || y == 0x100 || y == 0x800
                || y == 0x1000 || y == 0x2000 || y == 0x4000 || y == 0x8000 || y == 0x10000,
    ;
}

} // verus!
