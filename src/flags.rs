//! Names of the status flags and interrupt sources, and the bits they
//! stand for in STAT and INTENSET.
use vstd::prelude::*;

verus! {

/// A status flag of STAT.
#[derive(Clone, Copy, Debug, PartialEq, Eq, Structural)]
#[allow(non_camel_case_types, clippy::upper_case_acronyms)]
pub enum Flag {
    RXRDY,
    RXIDLE,
    TXRDY,
    TXIDLE,
    CTS,
    DELTACTS,
    TXDISSTAT,
    OVERRUNINT,
    RXBRK,
    DELTARXBRK,
    START,
    FRAMERRINT,
    PARITYERRINT,
    RXNOISEINT,
    ABERR,
}

impl Flag {
    /// The bit of STAT that holds the flag.
    pub open spec fn spec_bit(self) -> u32 {
        match self {
            Flag::RXRDY => 0x1,
            Flag::RXIDLE => 0x2,
            Flag::TXRDY => 0x4,
            Flag::TXIDLE => 0x8,
            Flag::CTS => 0x10,
            Flag::DELTACTS => 0x20,
            Flag::TXDISSTAT => 0x40,
            Flag::OVERRUNINT => 0x100,
            Flag::RXBRK => 0x400,
            Flag::DELTARXBRK => 0x800,
            Flag::START => 0x1000,
            Flag::FRAMERRINT => 0x2000,
            Flag::PARITYERRINT => 0x4000,
            Flag::RXNOISEINT => 0x8000,
            Flag::ABERR => 0x10000,
        }
    }

    /// Whether the hardware keeps the flag set until software writes it
    /// back; such a flag is cleared once it has been seen.
    pub open spec fn spec_needs_reset(self) -> bool {
        match self {
            Flag::DELTACTS | Flag::OVERRUNINT | Flag::DELTARXBRK | Flag::START
            | Flag::FRAMERRINT | Flag::PARITYERRINT | Flag::RXNOISEINT | Flag::ABERR => true,
            _ => false,
        }
    }

    pub fn bit(self) -> (r: u32)
        ensures
            r == self.spec_bit(),
    {
        match self {
            Flag::RXRDY => 0x1,
            Flag::RXIDLE => 0x2,
            Flag::TXRDY => 0x4,
            Flag::TXIDLE => 0x8,
            Flag::CTS => 0x10,
            Flag::DELTACTS => 0x20,
            Flag::TXDISSTAT => 0x40,
            Flag::OVERRUNINT => 0x100,
            Flag::RXBRK => 0x400,
            Flag::DELTARXBRK => 0x800,
            Flag::START => 0x1000,
            Flag::FRAMERRINT => 0x2000,
            Flag::PARITYERRINT => 0x4000,
            Flag::RXNOISEINT => 0x8000,
            Flag::ABERR => 0x10000,
        }
    }

    pub fn needs_reset(self) -> (r: bool)
        ensures
            r == self.spec_needs_reset(),
    {
        match self {
            Flag::DELTACTS | Flag::OVERRUNINT | Flag::DELTARXBRK | Flag::START
            | Flag::FRAMERRINT | Flag::PARITYERRINT | Flag::RXNOISEINT | Flag::ABERR => true,
            _ => false,
        }
    }
}

/// A set of interrupt sources: those set to `true` are the ones an
/// operation acts on.
#[derive(Clone, Copy, Debug, PartialEq, Eq, Structural)]
#[allow(non_snake_case)]
pub struct Interrupts {
    pub RXRDY: bool,
    pub TXRDY: bool,
    pub TXIDLE: bool,
    pub DELTACTS: bool,
    pub TXDIS: bool,
    pub OVERRUN: bool,
    pub DELTARXBRK: bool,
    pub START: bool,
    pub FRAMERR: bool,
    pub PARITYERR: bool,
    pub RXNOISE: bool,
    pub ABERR: bool,
}

/// The bit `bit` where `on`, else nothing.
pub open spec fn bit_if(on: bool, bit: u32) -> u32 {
    if on {
        bit
    } else {
        0
    }
}

fn pick(on: bool, bit: u32) -> (r: u32)
    ensures
        r == bit_if(on, bit),
{
    if on {
        bit
    } else {
        0
    }
}

impl Interrupts {
    /// The enable bits of INTENSET that the set names.
    pub open spec fn spec_mask(self) -> u32 {
        bit_if(self.RXRDY, 0x1) | bit_if(self.TXRDY, 0x4) | bit_if(self.TXIDLE, 0x8)
            | bit_if(self.DELTACTS, 0x20) | bit_if(self.TXDIS, 0x40) | bit_if(self.OVERRUN, 0x100)
            | bit_if(self.DELTARXBRK, 0x800) | bit_if(self.START, 0x1000)
            | bit_if(self.FRAMERR, 0x2000) | bit_if(self.PARITYERR, 0x4000)
            | bit_if(self.RXNOISE, 0x8000) | bit_if(self.ABERR, 0x10000)
    }

    pub fn mask(&self) -> (r: u32)
        ensures
            r == self.spec_mask(),
    {
        pick(self.RXRDY, 0x1) | pick(self.TXRDY, 0x4) | pick(self.TXIDLE, 0x8)
            | pick(self.DELTACTS, 0x20) | pick(self.TXDIS, 0x40) | pick(self.OVERRUN, 0x100)
            | pick(self.DELTARXBRK, 0x800) | pick(self.START, 0x1000)
            | pick(self.FRAMERR, 0x2000) | pick(self.PARITYERR, 0x4000)
            | pick(self.RXNOISE, 0x8000) | pick(self.ABERR, 0x10000)
    }
}

impl Default for Interrupts {
    /// The empty set: no source named.
    fn default() -> (r: Interrupts)
        ensures
            r.spec_mask() == 0,
            !r.RXRDY && !r.TXRDY && !r.TXIDLE && !r.DELTACTS && !r.TXDIS && !r.OVERRUN,
            !r.DELTARXBRK && !r.START && !r.FRAMERR && !r.PARITYERR && !r.RXNOISE && !r.ABERR,
    {
        let r = Interrupts {
            RXRDY: false,
            TXRDY: false,
            TXIDLE: false,
            DELTACTS: false,
            TXDIS: false,
            OVERRUN: false,
            DELTARXBRK: false,
            START: false,
            FRAMERR: false,
            PARITYERR: false,
            RXNOISE: false,
            ABERR: false,
        };
        assert(0u32 | 0 == 0) by (bit_vector);
        assert(r.spec_mask() == 0);
        r
    }
}

} // verus!
