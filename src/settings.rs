//! Line-format settings: word length, parity, stop bits, clock polarity.
use core::marker::PhantomData;
use vstd::prelude::*;

verus! {

/// CFG: word length field, two bits from bit 2
pub const CFG_DATALEN_SHIFT: u32 = 2;
/// CFG: parity field, two bits from bit 4
pub const CFG_PARITYSEL_SHIFT: u32 = 4;
/// CFG: stop-length bit
pub const CFG_STOPLEN_SHIFT: u32 = 6;
/// CFG: clock-polarity bit
pub const CFG_CLKPOL_SHIFT: u32 = 12;

/// Number of data bits in a word.
#[derive(Clone, Copy, Debug, PartialEq, Eq, Structural)]
pub enum DataLen {
    Seven,
    Eight,
    Nine,
}

/// Parity bit added to each word.
#[derive(Clone, Copy, Debug, PartialEq, Eq, Structural)]
pub enum Parity {
    NoParity,
    Even,
    Odd,
}

/// Number of stop bits.
#[derive(Clone, Copy, Debug, PartialEq, Eq, Structural)]
pub enum StopLen {
    One,
    Two,
}

/// Edge on which data is sampled in synchronous mode.
#[derive(Clone, Copy, Debug, PartialEq, Eq, Structural)]
pub enum ClockPolarity {
    FallingEdge,
    RisingEdge,
}

impl DataLen {
    /// The value of the CFG word-length field.
    pub open spec fn spec_code(self) -> u32 {
        match self {
            DataLen::Seven => 0,
            DataLen::Eight => 1,
            DataLen::Nine => 2,
        }
    }
}

impl Parity {
    /// The value of the CFG parity field.
    pub open spec fn spec_code(self) -> u32 {
        match self {
            Parity::NoParity => 0,
            Parity::Even => 2,
            Parity::Odd => 3,
        }
    }
}

impl StopLen {
    /// The value of the CFG stop-length bit.
    pub open spec fn spec_code(self) -> u32 {
        match self {
            StopLen::One => 0,
            StopLen::Two => 1,
        }
    }
}

impl ClockPolarity {
    /// The value of the CFG clock-polarity bit.
    pub open spec fn spec_code(self) -> u32 {
        match self {
            ClockPolarity::FallingEdge => 0,
            ClockPolarity::RisingEdge => 1,
        }
    }
}

/// The line format as it stands in CFG: word length, parity, stop length
/// and clock polarity fields, in that order.
pub open spec fn line_format(cfg: u32) -> (u32, u32, u32, u32) {
    (
        (cfg >> CFG_DATALEN_SHIFT) & 3,
        (cfg >> CFG_PARITYSEL_SHIFT) & 3,
        (cfg >> CFG_STOPLEN_SHIFT) & 1,
        (cfg >> CFG_CLKPOL_SHIFT) & 1,
    )
}

/// The CFG bits of a line format given by its field values.
pub open spec fn format_bits(d: u32, p: u32, s: u32, c: u32) -> u32 {
    (d << CFG_DATALEN_SHIFT) | (p << CFG_PARITYSEL_SHIFT) | (s << CFG_STOPLEN_SHIFT) | (c
        << CFG_CLKPOL_SHIFT)
}

/// Line-format settings for words of type `W`, consumed when the USART is
/// enabled.
pub struct Settings<W> {
    data_len: DataLen,
    parity: Parity,
    stop_len: StopLen,
    clock_pol: ClockPolarity,
    _word: PhantomData<W>,
}

impl<W> Settings<W> {
    pub closed spec fn spec_data_len(&self) -> DataLen {
        self.data_len
    }

    pub closed spec fn spec_parity(&self) -> Parity {
        self.parity
    }

    pub closed spec fn spec_stop_len(&self) -> StopLen {
        self.stop_len
    }

    pub closed spec fn spec_clock_pol(&self) -> ClockPolarity {
        self.clock_pol
    }

    /// The field values these settings put in CFG.
    pub open spec fn spec_format(&self) -> (u32, u32, u32, u32) {
        (
            self.spec_data_len().spec_code(),
            self.spec_parity().spec_code(),
            self.spec_stop_len().spec_code(),
            self.spec_clock_pol().spec_code(),
        )
    }

    /// The CFG bits these settings put in CFG.
    pub open spec fn spec_bits(&self) -> u32 {
        format_bits(
            self.spec_format().0,
            self.spec_format().1,
            self.spec_format().2,
            self.spec_format().3,
        )
    }

    /// Each field value fits its CFG field.
    pub proof fn lemma_format_fits(&self)
        ensures
            self.spec_format().0 <= 2,
            self.spec_format().1 <= 3,
            self.spec_format().2 <= 1,
            self.spec_format().3 <= 1,
    {
    }

    /// Use no parity bit.
    pub fn parity_none(self) -> (r: Self)
        ensures
            r.spec_parity() == Parity::NoParity,
            r.spec_data_len() == self.spec_data_len(),
            r.spec_stop_len() == self.spec_stop_len(),
            r.spec_clock_pol() == self.spec_clock_pol(),
    {
        Settings { parity: Parity::NoParity, ..self }
    }

    /// Use even parity.
    pub fn parity_even(self) -> (r: Self)
        ensures
            r.spec_parity() == Parity::Even,
            r.spec_data_len() == self.spec_data_len(),
            r.spec_stop_len() == self.spec_stop_len(),
            r.spec_clock_pol() == self.spec_clock_pol(),
    {
        Settings { parity: Parity::Even, ..self }
    }

    /// Use odd parity.
    pub fn parity_odd(self) -> (r: Self)
        ensures
            r.spec_parity() == Parity::Odd,
            r.spec_data_len() == self.spec_data_len(),
            r.spec_stop_len() == self.spec_stop_len(),
            r.spec_clock_pol() == self.spec_clock_pol(),
    {
        Settings { parity: Parity::Odd, ..self }
    }

    /// Use one stop bit.
    pub fn stop_len_1(self) -> (r: Self)
        ensures
            r.spec_stop_len() == StopLen::One,
            r.spec_data_len() == self.spec_data_len(),
            r.spec_parity() == self.spec_parity(),
            r.spec_clock_pol() == self.spec_clock_pol(),
    {
        Settings { stop_len: StopLen::One, ..self }
    }

    /// Use two stop bits.
    pub fn stop_len_2(self) -> (r: Self)
        ensures
            r.spec_stop_len() == StopLen::Two,
            r.spec_data_len() == self.spec_data_len(),
            r.spec_parity() == self.spec_parity(),
            r.spec_clock_pol() == self.spec_clock_pol(),
    {
        Settings { stop_len: StopLen::Two, ..self }
    }

    /// Sample on the falling clock edge (synchronous mode).
    pub fn clock_pol_falling(self) -> (r: Self)
        ensures
            r.spec_clock_pol() == ClockPolarity::FallingEdge,
            r.spec_data_len() == self.spec_data_len(),
            r.spec_parity() == self.spec_parity(),
            r.spec_stop_len() == self.spec_stop_len(),
    {
        Settings { clock_pol: ClockPolarity::FallingEdge, ..self }
    }

    /// Sample on the rising clock edge (synchronous mode).
    pub fn clock_pol_rising(self) -> (r: Self)
        ensures
            r.spec_clock_pol() == ClockPolarity::RisingEdge,
            r.spec_data_len() == self.spec_data_len(),
            r.spec_parity() == self.spec_parity(),
            r.spec_stop_len() == self.spec_stop_len(),
    {
        Settings { clock_pol: ClockPolarity::RisingEdge, ..self }
    }

    /// The CFG bits these settings put in CFG.
    pub fn bits(&self) -> (r: u32)
        ensures
            r == self.spec_bits(),
    {
        let d: u32 = match self.data_len {
            DataLen::Seven => 0,
            DataLen::Eight => 1,
            DataLen::Nine => 2,
        };
        let p: u32 = match self.parity {
            Parity::NoParity => 0,
            Parity::Even => 2,
            Parity::Odd => 3,
        };
        let s: u32 = match self.stop_len {
            StopLen::One => 0,
            StopLen::Two => 1,
        };
        let c: u32 = match self.clock_pol {
            ClockPolarity::FallingEdge => 0,
            ClockPolarity::RisingEdge => 1,
        };
        (d << CFG_DATALEN_SHIFT) | (p << CFG_PARITYSEL_SHIFT) | (s << CFG_STOPLEN_SHIFT) | (c
            << CFG_CLKPOL_SHIFT)
    }
}

impl Settings<u8> {
    /// Use 7-bit words.
    pub fn data_len_7(self) -> (r: Self)
        ensures
            r.spec_data_len() == DataLen::Seven,
            r.spec_parity() == self.spec_parity(),
            r.spec_stop_len() == self.spec_stop_len(),
            r.spec_clock_pol() == self.spec_clock_pol(),
    {
        Settings { data_len: DataLen::Seven, ..self }
    }

    /// Use 8-bit words.
    pub fn data_len_8(self) -> (r: Self)
        ensures
            r.spec_data_len() == DataLen::Eight,
            r.spec_parity() == self.spec_parity(),
            r.spec_stop_len() == self.spec_stop_len(),
            r.spec_clock_pol() == self.spec_clock_pol(),
    {
        Settings { data_len: DataLen::Eight, ..self }
    }

    /// Use 9-bit words, which are carried as `u16`.
    pub fn data_len_9(self) -> (r: Settings<u16>)
        ensures
            r.spec_data_len() == DataLen::Nine,
            r.spec_parity() == self.spec_parity(),
            r.spec_stop_len() == self.spec_stop_len(),
            r.spec_clock_pol() == self.spec_clock_pol(),
    {
        Settings {
            data_len: DataLen::Nine,
            parity: self.parity,
            stop_len: self.stop_len,
            clock_pol: self.clock_pol,
            _word: PhantomData,
        }
    }
}

impl Default for Settings<u8> {
    /// 8-bit words, no parity, one stop bit, sampling on the falling edge.
    fn default() -> (r: Self)
        ensures
            r.spec_data_len() == DataLen::Eight,
            r.spec_parity() == Parity::NoParity,
            r.spec_stop_len() == StopLen::One,
            r.spec_clock_pol() == ClockPolarity::FallingEdge,
    {
        Settings {
            data_len: DataLen::Eight,
            parity: Parity::NoParity,
            stop_len: StopLen::One,
            clock_pol: ClockPolarity::FallingEdge,
            _word: PhantomData,
        }
    }
}

} // verus!
