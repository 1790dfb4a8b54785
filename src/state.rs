//! The type-level tags of the USART handle: its configuration state, its
//! mode, and the width of the words it moves.
use core::marker::PhantomData;
use vstd::prelude::*;

verus! {

/// The handle is disabled: only the transitions that enable it are there.
pub struct Disabled;

/// The handle is enabled with word type `W` in mode `Mode`: transfers,
/// flags and interrupts are there.
pub struct Enabled<W, Mode> {
    _word: PhantomData<W>,
    _mode: PhantomData<Mode>,
}

/// Asynchronous mode: no clock signal on the line.
pub struct AsyncMode;

/// Synchronous mode, as master or as slave: a clock signal on the line.
pub struct SyncMode;

/// The unit of transfer: `u8` for 7- and 8-bit words, `u16` for 9-bit words.
pub trait Word: Copy + Sized {
    /// The word as it stands in the data register.
    spec fn spec_raw(self) -> u32;

    /// The bits of the data register that the type can hold.
    spec fn spec_mask() -> u32;

    /// The word held by the low bits of a data register value.
    fn from_raw(raw: u32) -> (r: Self)
        ensures
            r.spec_raw() == raw & Self::spec_mask(),
    ;

    /// The data register value that carries the word.
    fn to_raw(self) -> (r: u32)
        ensures
            r == self.spec_raw(),
    ;
}

impl Word for u8 {
    open spec fn spec_raw(self) -> u32 {
        self as u32
    }

    open spec fn spec_mask() -> u32 {
        0xff
    }

    fn from_raw(raw: u32) -> (r: u8) {
        assert(raw & 0xff <= 0xff) by (bit_vector);
        (raw & 0xff) as u8
    }

    fn to_raw(self) -> (r: u32) {
        self as u32
    }
}

impl Word for u16 {
    open spec fn spec_raw(self) -> u32 {
        self as u32
    }

    open spec fn spec_mask() -> u32 {
        0x1ff
    }

    fn from_raw(raw: u32) -> (r: u16) {
        assert(raw & 0x1ff <= 0x1ff) by (bit_vector);
        (raw & 0x1ff) as u16
    }

    fn to_raw(self) -> (r: u32) {
        self as u32
    }
}

} // verus!
