//! A model of one USART register block, and the hardware's side of it.
//!
//! Driver code reads and writes the fields as it would the memory-mapped
//! registers. The methods under "hardware side" stand for what the peripheral
//! itself does: a word arriving on the line, a word leaving the shift register,
//! a status bit being latched.
use vstd::prelude::*;

verus! {

/// STAT: receiver ready (a word waits in RXDAT)
pub const STAT_RXRDY: u32 = 0x1;
/// STAT: receiver idle
pub const STAT_RXIDLE: u32 = 0x2;
/// STAT: transmitter ready (TXDAT can take a word)
pub const STAT_TXRDY: u32 = 0x4;
/// STAT: transmitter idle (nothing left in the shift register)
pub const STAT_TXIDLE: u32 = 0x8;
/// STAT: overrun, a word arrived before the last one was read
pub const STAT_OVERRUNINT: u32 = 0x100;
/// STAT: the receiver sees a break
pub const STAT_RXBRK: u32 = 0x400;
/// STAT: framing error
pub const STAT_FRAMERRINT: u32 = 0x2000;
/// STAT: parity error
pub const STAT_PARITYERRINT: u32 = 0x4000;
/// STAT: noise detected
pub const STAT_RXNOISEINT: u32 = 0x8000;

/// The low bits of RXDAT and TXDAT that hold a word.
pub const DATA_MASK: u32 = 0x1ff;

/// STAT after reset: both sides idle, the transmitter ready.
pub const STAT_RESET: u32 = 0xe;
/// OSR after reset: sixteen-fold oversampling.
pub const OSR_RESET: u32 = 0xf;

/// The register block of one USART instance.
#[derive(Clone, Copy)]
pub struct Registers {
    /// configuration: enable, line format, mode
    pub cfg: u32,
    /// control: break, address detect, transmit disable, clock, autobaud
    pub ctl: u32,
    /// status; some bits are cleared by writing them back
    pub stat: u32,
    /// interrupt enable bits
    pub intenset: u32,
    /// received word
    pub rxdat: u32,
    /// word to transmit
    pub txdat: u32,
    /// baud-rate divisor, minus one
    pub brg: u32,
    /// oversample count, minus one
    pub osr: u32,
}

impl Registers {
    /// The register block as the hardware leaves it after reset.
    pub open spec fn spec_reset() -> Registers {
        Registers {
            cfg: 0,
            ctl: 0,
            stat: STAT_RESET,
            intenset: 0,
            rxdat: 0,
            txdat: 0,
            brg: 0,
            osr: OSR_RESET,
        }
    }

    pub fn reset() -> (r: Registers)
        ensures
            r == Registers::spec_reset(),
    {
        Registers {
            cfg: 0,
            ctl: 0,
            stat: STAT_RESET,
            intenset: 0,
            rxdat: 0,
            txdat: 0,
            brg: 0,
            osr: OSR_RESET,
        }
    }

    /// The register block after word `word` arrived on the line.
    pub open spec fn spec_received(self, word: u32) -> Registers {
        Registers {
            rxdat: word & DATA_MASK,
            stat: if self.stat & STAT_RXRDY != 0 {
                self.stat | STAT_RXRDY | STAT_OVERRUNINT
            } else {
                self.stat | STAT_RXRDY
            },
            ..self
        }
    }

    /// The register block after the word in TXDAT was shifted out.
    pub open spec fn spec_shifted_out(self) -> Registers {
        if self.stat & STAT_TXRDY != 0 {
            self
        } else {
            Registers { stat: self.stat | STAT_TXRDY | STAT_TXIDLE, ..self }
        }
    }

    // hardware side
    /// A word arrives on the line. It lands in RXDAT; if the previous word
    /// was not read yet, the overrun bit latches.
    pub fn receive(&mut self, word: u32)
        ensures
            *final(self) == old(self).spec_received(word),
    {
        self.rxdat = word & DATA_MASK;
        if self.stat & STAT_RXRDY != 0 {
            self.stat = self.stat | STAT_RXRDY | STAT_OVERRUNINT;
        } else {
            self.stat = self.stat | STAT_RXRDY;
        }
    }

    // hardware side
    /// The hardware latches the given status bits (an error it detected).
    pub fn latch_status(&mut self, bits: u32)
        ensures
            *final(self) == (Registers { stat: old(self).stat | bits, ..*old(self) }),
    {
        self.stat = self.stat | bits;
    }

    // hardware side
    /// The transmitter shifts the word in TXDAT out onto the line. Returns
    /// that word, or `None` where TXDAT held nothing to send.
    pub fn shift_out(&mut self) -> (r: Option<u32>)
        ensures
            *final(self) == old(self).spec_shifted_out(),
            r == (if old(self).stat & STAT_TXRDY != 0 {
                None
            } else {
                Some(old(self).txdat)
            }),
    {
        if self.stat & STAT_TXRDY != 0 {
            None
        } else {
            self.stat = self.stat | STAT_TXRDY | STAT_TXIDLE;
            Some(self.txdat)
        }
    }
}

} // verus!
