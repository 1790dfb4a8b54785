//! Baud-rate configuration: the divisor and oversample values that the
//! baud-rate generator is programmed with.
use core::marker::PhantomData;
use vstd::prelude::*;

use crate::state::{AsyncMode, SyncMode};
use crate::syscon::{Handle, INSTANCES};

verus! {

/// Frequency of the free-running oscillator, in Hz.
pub const FRO_HZ: u32 = 12_000_000;

/// The fewest baud-rate generator cycles per bit that keep a derived rate
/// within 5% of its target.
pub const MIN_CYCLES_PER_BIT: u32 = 20;

/// A clock that can feed a USART instance.
pub trait ClockSource {
    /// The selector value that routes this clock to an instance.
    spec fn spec_selector() -> u32;

    /// Route this clock to instance `n`.
    fn select(n: usize, syscon: &mut Handle)
        requires
            old(syscon).wf(),
            n < INSTANCES,
        ensures
            final(syscon).wf(),
            final(syscon).enabled@ == old(syscon).enabled@,
            final(syscon).fclksel@ == old(syscon).fclksel@.update(n as int, Self::spec_selector()),
    ;
}

/// The free-running oscillator.
pub struct Fro;

/// The fractional rate generator.
pub struct Frg;

impl ClockSource for Fro {
    open spec fn spec_selector() -> u32 {
        0
    }

    fn select(n: usize, syscon: &mut Handle) {
        syscon.select_clock_source(n, 0);
    }
}

impl ClockSource for Frg {
    open spec fn spec_selector() -> u32 {
        2
    }

    fn select(n: usize, syscon: &mut Handle) {
        syscon.select_clock_source(n, 2);
    }
}

/// The bit rate that a clock of `hz` gives with divisor register `brg` and
/// oversample register `osr` (both hold their value minus one).
pub open spec fn bit_rate(hz: int, brg: int, osr: int) -> int {
    hz / ((brg + 1) * (osr + 1))
}

/// Whether divisor register `brg` and oversample register `osr` divide a
/// clock of `hz` down to `baud` or the nearest rate above it, with enough
/// cycles per bit to stay within 5% of it.
pub open spec fn fits_baudrate(hz: int, baud: int, brg: int, osr: int) -> bool {
    &&& brg + 1 >= MIN_CYCLES_PER_BIT
    &&& 4 <= osr <= 15
    &&& baud * (osr + 1) * (brg + 1) <= hz
    &&& hz < baud * (osr + 1) * (brg + 2)
}

/// Baud-rate settings for clock source `C`, for use in mode `Mode`.
pub struct Clock<C, Mode> {
    brgval: u16,
    osrval: u8,
    _clock: PhantomData<C>,
    _mode: PhantomData<Mode>,
}

impl<C, Mode> Clock<C, Mode> {
    /// The divisor register value.
    pub closed spec fn spec_brgval(&self) -> u16 {
        self.brgval
    }

    /// The oversample register value.
    pub closed spec fn spec_osrval(&self) -> u8 {
        self.osrval
    }

    pub fn brgval(&self) -> (r: u16)
        ensures
            r == self.spec_brgval(),
    {
        self.brgval
    }

    pub fn osrval(&self) -> (r: u8)
        ensures
            r == self.spec_osrval(),
    {
        self.osrval
    }
}

impl<C: ClockSource> Clock<C, AsyncMode> {
    /// Settings for divisor `brgval` (the register value) and `osrval` clock
    /// cycles per bit, from 5 to 16.
    pub fn new(_source: &C, brgval: u16, osrval: u8) -> (r: Self)
        requires
            5 <= osrval <= 16,
        ensures
            r.spec_brgval() == brgval,
            r.spec_osrval() == osrval - 1,
    {
        Clock { brgval, osrval: osrval - 1, _clock: PhantomData, _mode: PhantomData }
    }
}

impl<C: ClockSource> Clock<C, SyncMode> {
    /// Settings for divisor `brgval` (the register value); synchronous mode
    /// does not oversample.
    pub fn new_sync(_source: &C, brgval: u16) -> (r: Self)
        ensures
            r.spec_brgval() == brgval,
            r.spec_osrval() == 0,
    {
        Clock { brgval, osrval: 0, _clock: PhantomData, _mode: PhantomData }
    }
}

impl Clock<Fro, AsyncMode> {
    /// Settings that derive `baudrate` from the free-running oscillator: the
    /// most oversampling that leaves 20 divisor steps per bit, and the
    /// divisor that gives the nearest rate at or above the target.
    pub fn new_with_baudrate(baudrate: u32) -> (r: Self)
        requires
            12 <= baudrate <= 120_000,
        ensures
            fits_baudrate(
                FRO_HZ as int,
                baudrate as int,
                r.spec_brgval() as int,
                r.spec_osrval() as int,
            ),
            r.spec_osrval() == 15 || baudrate * MIN_CYCLES_PER_BIT * (r.spec_osrval() + 2)
                > FRO_HZ,
    {
        let mut osr: u32 = 16;
        loop
            invariant
                5 <= osr <= 16,
                12 <= baudrate <= 120_000,
                osr < 16 ==> baudrate * MIN_CYCLES_PER_BIT * (osr + 1) > FRO_HZ,
            ensures
                5 <= osr <= 16,
                osr < 16 ==> baudrate * MIN_CYCLES_PER_BIT * (osr + 1) > FRO_HZ,
                osr == 5 || baudrate * MIN_CYCLES_PER_BIT * osr <= FRO_HZ,
            decreases osr,
        {
            assert(baudrate * 20 * osr <= 38_400_000) by (nonlinear_arith)
                requires
                    osr <= 16,
                    baudrate <= 120_000,
            ;
            if osr == 5 || baudrate * MIN_CYCLES_PER_BIT * osr <= FRO_HZ {
                break;
            }
            osr = osr - 1;
        }
        assert(baudrate * osr <= 1_920_000) by (nonlinear_arith)
            requires
                osr <= 16,
                baudrate <= 120_000,
        ;
        assert(baudrate * osr > 0) by (nonlinear_arith)
            requires
                osr >= 5,
                baudrate >= 12,
        ;
        let d: u32 = FRO_HZ / (baudrate * osr);
        assert(baudrate * 20 * osr <= FRO_HZ) by (nonlinear_arith)
            requires
                5 <= osr <= 16,
                12 <= baudrate <= 120_000,
                osr == 5 || baudrate * 20 * osr <= FRO_HZ,
        ;
        assert(d <= 65536) by (nonlinear_arith)
            requires
                5 <= osr <= 16,
                12 <= baudrate,
                osr < 16 ==> baudrate * 20 * (osr + 1) > FRO_HZ,
                d == (FRO_HZ as int) / (baudrate * osr),
        ;
        assert(d >= 20 && baudrate * osr * d <= FRO_HZ && FRO_HZ < baudrate * osr * (d + 1))
            by (nonlinear_arith)
            requires
                baudrate * 20 * osr <= FRO_HZ,
                baudrate * osr > 0,
                d == (FRO_HZ as int) / (baudrate * osr),
        ;
        Clock {
            brgval: (d - 1) as u16,
            osrval: (osr - 1) as u8,
            _clock: PhantomData,
            _mode: PhantomData,
        }
    }
}

/// Settings that fit a target rate reproduce it within 5%: the rate they
/// give is at least the target, and less than 21/20 of it.
pub proof fn lemma_baudrate_round_trip(hz: int, baud: int, brg: int, osr: int)
    requires
        baud > 0,
        fits_baudrate(hz, baud, brg, osr),
    ensures
        baud <= bit_rate(hz, brg, osr),
        20 * bit_rate(hz, brg, osr) < 21 * baud,
{
    let d = brg + 1;
    let o = osr + 1;
    let q = bit_rate(hz, brg, osr);
    assert(baud * (o * d) <= hz) by (nonlinear_arith)
        requires
            baud * o * d <= hz,
    ;
    assert(o * d > 0) by (nonlinear_arith)
        requires
            o >= 5 && d >= 20,
    ;
    assert(q * (o * d) <= hz) by (nonlinear_arith)
        requires
            o * d > 0,
            q == hz / (o * d),
    ;
    assert(baud <= q) by (nonlinear_arith)
        requires
            o * d > 0,
            baud * (o * d) <= hz,
            q == hz / (o * d),
    ;
    assert(q * d < baud * (d + 1)) by (nonlinear_arith)
        requires
            q * (o * d) <= hz,
            hz < baud * o * (d + 1),
            o > 0,
    ;
    assert(20 * q < 21 * baud) by (nonlinear_arith)
        requires
            q * d < baud * (d + 1),
            d >= 20,
            baud > 0,
    ;
}

} // verus!
