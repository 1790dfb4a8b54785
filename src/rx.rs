//! The receiver: one word at a time, without blocking, errors first.
use vstd::prelude::*;

use crate::registers::{
    Registers, STAT_FRAMERRINT, STAT_OVERRUNINT, STAT_PARITYERRINT, STAT_RXBRK, STAT_RXNOISEINT,
    STAT_RXRDY,
};
use crate::state::Word;

verus! {

/// A receive error latched by the hardware.
#[derive(Clone, Copy, Debug, PartialEq, Eq, Structural)]
pub enum RxError {
    /// A word arrived before the previous one was read.
    Overrun,
    /// A stop bit was missing.
    Framing,
    /// The parity bit did not match.
    Parity,
    /// The samples of a bit disagreed.
    Noise,
    /// The line is held in a break.
    Break,
}

/// The error that status `stat` reports, if any: overrun before framing,
/// before parity, before noise, before a break.
pub open spec fn latched_error(stat: u32) -> Option<RxError> {
    if stat & STAT_OVERRUNINT != 0 {
        Some(RxError::Overrun)
    } else if stat & STAT_FRAMERRINT != 0 {
        Some(RxError::Framing)
    } else if stat & STAT_PARITYERRINT != 0 {
        Some(RxError::Parity)
    } else if stat & STAT_RXNOISEINT != 0 {
        Some(RxError::Noise)
    } else if stat & STAT_RXBRK != 0 {
        Some(RxError::Break)
    } else {
        None
    }
}

/// STAT after error `e` was reported: its bit is cleared, and so is the
/// word that came with it. A break is a state of the line and stays.
pub open spec fn stat_after_error(stat: u32, e: RxError) -> u32 {
    match e {
        RxError::Overrun => stat & !(STAT_OVERRUNINT | STAT_RXRDY),
        RxError::Framing => stat & !(STAT_FRAMERRINT | STAT_RXRDY),
        RxError::Parity => stat & !(STAT_PARITYERRINT | STAT_RXRDY),
        RxError::Noise => stat & !(STAT_RXNOISEINT | STAT_RXRDY),
        RxError::Break => stat,
    }
}

/// What a read does: `before` and `after` are the register block around
/// it, `r` its result.
pub open spec fn read_post<W: Word>(
    before: Registers,
    after: Registers,
    r: nb::Result<W, RxError>,
) -> bool {
    &&& after.cfg == before.cfg && after.ctl == before.ctl
    &&& after.intenset == before.intenset && after.rxdat == before.rxdat
    &&& after.txdat == before.txdat
    &&& after.brg == before.brg && after.osr == before.osr
    &&& match latched_error(before.stat) {
        Some(e) => r == Err::<W, nb::Error<RxError>>(nb::Error::Other(e)) && after.stat
            == stat_after_error(before.stat, e),
        None => if before.stat & STAT_RXRDY != 0 {
            &&& r matches Ok(w)
            &&& w.spec_raw() == before.rxdat & W::spec_mask()
            &&& after.stat == before.stat & !STAT_RXRDY
        } else {
            r == Err::<W, nb::Error<RxError>>(nb::Error::WouldBlock) && after.stat == before.stat
        },
    }
}

/// Read one word: a latched error first (and the word that came with it is
/// dropped), else the waiting word, else `WouldBlock`.
pub fn read<W: Word>(regs: &mut Registers) -> (r: nb::Result<W, RxError>)
    ensures
        read_post(*old(regs), *final(regs), r),
{
    let stat = regs.stat;
    if stat & STAT_OVERRUNINT != 0 {
        regs.stat = stat & !(STAT_OVERRUNINT | STAT_RXRDY);
        Err(nb::Error::Other(RxError::Overrun))
    } else if stat & STAT_FRAMERRINT != 0 {
        regs.stat = stat & !(STAT_FRAMERRINT | STAT_RXRDY);
        Err(nb::Error::Other(RxError::Framing))
    } else if stat & STAT_PARITYERRINT != 0 {
        regs.stat = stat & !(STAT_PARITYERRINT | STAT_RXRDY);
        Err(nb::Error::Other(RxError::Parity))
    } else if stat & STAT_RXNOISEINT != 0 {
        regs.stat = stat & !(STAT_RXNOISEINT | STAT_RXRDY);
        Err(nb::Error::Other(RxError::Noise))
    } else if stat & STAT_RXBRK != 0 {
        Err(nb::Error::Other(RxError::Break))
    } else if stat & STAT_RXRDY != 0 {
        regs.stat = stat & !STAT_RXRDY;
        Ok(W::from_raw(regs.rxdat))
    } else {
        Err(nb::Error::WouldBlock)
    }
}

/// A read never hands out a word while an error is latched: with a word
/// waiting and an error latched, it returns that error, which names what
/// happened to the word.
pub proof fn lemma_error_before_data<W: Word>(
    before: Registers,
    after: Registers,
    r: nb::Result<W, RxError>,
)
    requires
        read_post(before, after, r),
        latched_error(before.stat) is Some,
    ensures
        r == Err::<W, nb::Error<RxError>>(nb::Error::Other(latched_error(before.stat)->0)),
        !(r is Ok),
{
}

} // verus!
