//! The transmitter: one word at a time, without blocking, and a flush that
//! waits for the shift register to drain.
use vstd::prelude::*;

use crate::registers::{Registers, STAT_TXIDLE, STAT_TXRDY};
use crate::state::Word;

verus! {

/// What a write of `word` does: `before` and `after` are the register block
/// around it, `r` its result.
pub open spec fn write_post<W: Word>(
    before: Registers,
    after: Registers,
    word: W,
    r: nb::Result<(), void::Void>,
) -> bool {
    if before.stat & STAT_TXRDY == 0 {
        r == Err::<(), nb::Error<void::Void>>(nb::Error::WouldBlock) && after == before
    } else {
        &&& r == Ok::<(), nb::Error<void::Void>>(())
        &&& after == (Registers {
            txdat: word.spec_raw(),
            stat: before.stat & !(STAT_TXRDY | STAT_TXIDLE),
            ..before
        })
    }
}

/// What a flush on register block `regs` returns.
pub open spec fn flush_post(regs: Registers, r: nb::Result<(), void::Void>) -> bool {
    if regs.stat & STAT_TXIDLE != 0 {
        r == Ok::<(), nb::Error<void::Void>>(())
    } else {
        r == Err::<(), nb::Error<void::Void>>(nb::Error::WouldBlock)
    }
}

/// Hand `word` to the transmitter, or `WouldBlock` while TXDAT is full.
pub fn write<W: Word>(regs: &mut Registers, word: W) -> (r: nb::Result<(), void::Void>)
    ensures
        write_post(*old(regs), *final(regs), word, r),
{
    if regs.stat & STAT_TXRDY == 0 {
        Err(nb::Error::WouldBlock)
    } else {
        regs.txdat = word.to_raw();
        regs.stat = regs.stat & !(STAT_TXRDY | STAT_TXIDLE);
        Ok(())
    }
}

/// `Ok` once every word handed over has left the shift register, else
/// `WouldBlock`.
pub fn flush(regs: &Registers) -> (r: nb::Result<(), void::Void>)
    ensures
        flush_post(*regs, r),
{
    if regs.stat & STAT_TXIDLE != 0 {
        Ok(())
    } else {
        Err(nb::Error::WouldBlock)
    }
}

/// A flush right after a write that was taken, before the hardware has
/// shifted the word out, reports `WouldBlock`.
pub proof fn lemma_flush_after_write_blocks<W: Word>(
    before: Registers,
    after: Registers,
    word: W,
    flushed: nb::Result<(), void::Void>,
)
    requires
        write_post(before, after, word, Ok::<(), nb::Error<void::Void>>(())),
        flush_post(after, flushed),
    ensures
        flushed == Err::<(), nb::Error<void::Void>>(nb::Error::WouldBlock),
{
    let s = before.stat;
    assert(s & 4u32 != 0 ==> (s & !(4u32 | 8u32)) & 8u32 == 0) by (bit_vector);
}

} // verus!
