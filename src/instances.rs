//! One USART instance: its number, its register block, and its line in the
//! interrupt controller.
use vstd::prelude::*;

use crate::registers::Registers;
use crate::syscon::INSTANCES;

verus! {

/// The hardware of one USART instance.
pub struct Instance {
    /// which instance: 0 for USART0, and so on
    pub number: usize,
    /// its register block
    pub regs: Registers,
    /// whether its interrupt is unmasked in the interrupt controller
    pub nvic_enabled: bool,
    /// whether its interrupt is pending in the interrupt controller
    pub nvic_pending: bool,
}

impl Instance {
    /// Instance `number` as after reset.
    pub fn new(number: usize) -> (r: Instance)
        requires
            number < INSTANCES,
        ensures
            r.number == number,
            r.regs == Registers::spec_reset(),
            !r.nvic_enabled,
            !r.nvic_pending,
    {
        Instance { number, regs: Registers::reset(), nvic_enabled: false, nvic_pending: false }
    }
}

} // verus!
