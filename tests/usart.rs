use lpc8xx_usart::registers::{
    STAT_FRAMERRINT, STAT_OVERRUNINT, STAT_PARITYERRINT, STAT_RXBRK, STAT_RXNOISEINT,
    STAT_TXIDLE, STAT_TXRDY,
};
use lpc8xx_usart::settings::{ClockPolarity, DataLen, Parity, StopLen};
use lpc8xx_usart::syscon::Handle;
use lpc8xx_usart::{
    AsyncMode, Clock, Disabled, Enabled, Flag, Frg, Fro, Instance, Interrupts, RxError, Settings,
    SyncMode, USART,
};

fn disabled(n: usize) -> USART<Disabled> {
    USART::new(Instance::new(n))
}

fn async_default(syscon: &mut Handle) -> USART<Enabled<u8, AsyncMode>> {
    let clock = Clock::new_with_baudrate(115200);
    disabled(0).enable_async(&clock, syscon, (), (), Settings::default())
}

#[test]
fn enable_async_writes_format_rate_and_clock() {
    let mut syscon = Handle::new();
    let usart = async_default(&mut syscon);
    let regs = usart.registers();
    assert_eq!(regs.cfg, 0x80005);
    assert_eq!(regs.ctl, 0x100);
    assert_eq!(regs.brg, 19);
    assert_eq!(regs.osr, 4);
    assert!(syscon.enabled[0]);
    assert!(!syscon.enabled[1]);
    assert_eq!(syscon.fclksel[0], 0);
}

#[test]
fn enable_keeps_other_ctl_bits_and_clears_configured_ones() {
    let mut syscon = Handle::new();
    let mut inst = Instance::new(2);
    inst.regs.ctl = 0x10146 | 0x200;
    let clock = Clock::new(&Frg, 7, 16);
    let usart = USART::new(inst).enable_async(&clock, &mut syscon, (), (), Settings::default());
    let regs = usart.registers();
    assert_eq!(regs.ctl, 0x300);
    assert_eq!(regs.brg, 7);
    assert_eq!(regs.osr, 15);
    assert!(syscon.enabled[2]);
    assert_eq!(syscon.fclksel[2], 2);
}

#[test]
fn reenable_with_other_settings_leaves_no_residue() {
    let mut syscon = Handle::new();
    let clock = Clock::new_with_baudrate(9600);
    let first = Settings::default().parity_odd().stop_len_2().clock_pol_rising().data_len_9();
    let usart = disabled(1).enable_async(&clock, &mut syscon, (), (), first);
    assert_eq!(usart.registers().cfg, 0x80001 | (2 << 2) | (3 << 4) | (1 << 6) | (1 << 12));
    let usart = usart.disable(&mut syscon);
    assert!(!syscon.enabled[1]);
    let sync = Clock::new_sync(&Fro, 3);
    let usart = usart.enable_sync_as_master(&sync, &mut syscon, (), (), (), Settings::default());
    assert!(syscon.enabled[1]);
    let regs = usart.registers();
    assert_eq!(regs.cfg, 0x80005 | 0x4800);
    assert_eq!(regs.brg, 3);
}

#[test]
fn reenable_every_mode_after_every_mode() {
    let mut syscon = Handle::new();
    let a = Clock::new_with_baudrate(115200);
    let s = Clock::new_sync(&Fro, 5);
    let u = disabled(3).enable_sync_as_slave(&Fro, &mut syscon, (), (), (), Settings::default());
    assert_eq!(u.registers().cfg, 0x80805);
    let u = u.disable(&mut syscon);
    let u = u.enable_async(&a, &mut syscon, (), (), Settings::default().data_len_7().parity_even());
    assert_eq!(u.registers().cfg, 0x80001 | (2 << 4));
    let u = u.disable(&mut syscon);
    let u = u.enable_sync_as_master(&s, &mut syscon, (), (), (), Settings::default().stop_len_2());
    assert_eq!(u.registers().cfg, 0x84805 | (1 << 6));
    let u = u.disable(&mut syscon);
    let u = u.enable_sync_as_slave(&Frg, &mut syscon, (), (), (), Settings::default());
    assert_eq!(u.registers().cfg, 0x80805);
    assert_eq!(syscon.fclksel[3], 2);
}

#[test]
fn settings_builders() {
    let s = Settings::default();
    let _: &Settings<u8> = &s;
    let s9: Settings<u16> = Settings::default().data_len_9().parity_none().stop_len_1();
    let _ = s9;
    let _ = (DataLen::Seven, Parity::Even, StopLen::Two, ClockPolarity::FallingEdge);
    let s8 = Settings::default().data_len_7().data_len_8().clock_pol_falling();
    assert_eq!(s8.bits(), 4);
}

#[test]
fn write_then_flush_would_block_until_shifted_out() {
    let mut syscon = Handle::new();
    let mut usart = async_default(&mut syscon);
    assert!(usart.flush().is_ok());
    assert!(usart.write(b'A').is_ok());
    assert!(matches!(usart.flush(), Err(nb::Error::WouldBlock)));
    assert!(matches!(usart.write(b'B'), Err(nb::Error::WouldBlock)));
    assert_eq!(usart.line_shift_out(), Some(0x41));
    assert!(usart.flush().is_ok());
    assert_eq!(usart.line_shift_out(), None);
}

#[test]
fn hello_world_is_sent_word_by_word() {
    let mut syscon = Handle::new();
    let mut usart = async_default(&mut syscon);
    let mut line: Vec<u32> = Vec::new();
    let mut accepted = 0;
    for &byte in b"Hello, world!" {
        loop {
            match usart.write(byte) {
                Ok(()) => {
                    accepted += 1;
                    break;
                }
                Err(nb::Error::WouldBlock) => {
                    if let Some(w) = usart.line_shift_out() {
                        line.push(w);
                    }
                }
                Err(nb::Error::Other(_)) => unreachable!(),
            }
        }
    }
    assert_eq!(accepted, 13);
    loop {
        match usart.flush() {
            Ok(()) => break,
            Err(_) => {
                if let Some(w) = usart.line_shift_out() {
                    line.push(w);
                }
            }
        }
    }
    let sent: Vec<u8> = line.iter().map(|w| *w as u8).collect();
    assert_eq!(sent, b"Hello, world!".to_vec());
}

#[test]
fn framing_error_is_read_instead_of_data() {
    let mut syscon = Handle::new();
    let mut usart = async_default(&mut syscon);
    usart.line_receive(0x55);
    usart.line_latch_status(STAT_FRAMERRINT);
    assert!(matches!(usart.read(), Err(nb::Error::Other(RxError::Framing))));
    assert_eq!(usart.registers().stat & STAT_FRAMERRINT, 0);
    assert!(matches!(usart.read(), Err(nb::Error::WouldBlock)));
}

#[test]
fn framing_error_without_data() {
    let mut syscon = Handle::new();
    let mut usart = async_default(&mut syscon);
    usart.line_latch_status(STAT_FRAMERRINT);
    assert!(matches!(usart.read(), Err(nb::Error::Other(RxError::Framing))));
}

#[test]
fn each_error_kind_is_decoded() {
    let mut syscon = Handle::new();
    let mut usart = async_default(&mut syscon);
    usart.line_receive(1);
    usart.line_latch_status(STAT_PARITYERRINT);
    assert!(matches!(usart.read(), Err(nb::Error::Other(RxError::Parity))));
    usart.line_receive(2);
    usart.line_latch_status(STAT_RXNOISEINT);
    assert!(matches!(usart.read(), Err(nb::Error::Other(RxError::Noise))));
    usart.line_receive(3);
    usart.line_receive(4);
    assert_eq!(usart.registers().stat & STAT_OVERRUNINT, STAT_OVERRUNINT);
    assert!(matches!(usart.read(), Err(nb::Error::Other(RxError::Overrun))));
    usart.line_latch_status(STAT_RXBRK);
    assert!(matches!(usart.read(), Err(nb::Error::Other(RxError::Break))));
    assert!(matches!(usart.read(), Err(nb::Error::Other(RxError::Break))));
}

#[test]
fn errors_come_in_priority_order() {
    let mut syscon = Handle::new();
    let mut usart = async_default(&mut syscon);
    usart.line_latch_status(STAT_RXNOISEINT | STAT_PARITYERRINT | STAT_FRAMERRINT);
    assert!(matches!(usart.read(), Err(nb::Error::Other(RxError::Framing))));
    assert!(matches!(usart.read(), Err(nb::Error::Other(RxError::Parity))));
    assert!(matches!(usart.read(), Err(nb::Error::Other(RxError::Noise))));
    assert!(matches!(usart.read(), Err(nb::Error::WouldBlock)));
}

#[test]
fn read_returns_waiting_word() {
    let mut syscon = Handle::new();
    let mut usart = async_default(&mut syscon);
    assert!(matches!(usart.read(), Err(nb::Error::WouldBlock)));
    usart.line_receive(0x1a5);
    assert!(matches!(usart.read(), Ok(0xa5)));
    assert!(matches!(usart.read(), Err(nb::Error::WouldBlock)));
}

#[test]
fn nine_bit_words() {
    let mut syscon = Handle::new();
    let clock = Clock::new_with_baudrate(115200);
    let settings = Settings::default().data_len_9();
    let mut usart: USART<Enabled<u16, AsyncMode>> =
        disabled(4).enable_async(&clock, &mut syscon, (), (), settings);
    assert_eq!(usart.registers().cfg, 0x80001 | (2 << 2));
    usart.line_receive(0x1a5);
    assert!(matches!(usart.read(), Ok(0x1a5)));
    assert!(usart.write(0x1ffu16).is_ok());
    assert_eq!(usart.registers().txdat, 0x1ff);
}

#[test]
fn interrupts_enable_and_disable_only_named_sources() {
    let mut syscon = Handle::new();
    let mut usart = async_default(&mut syscon);
    usart.enable_interrupts(Interrupts { RXRDY: true, ..Interrupts::default() });
    usart.disable_interrupts(Interrupts { TXRDY: true, ..Interrupts::default() });
    assert_eq!(usart.registers().intenset, 0x1);
    usart.enable_interrupts(Interrupts { TXRDY: true, FRAMERR: true, ..Interrupts::default() });
    assert_eq!(usart.registers().intenset, 0x2005);
    usart.disable_interrupts(Interrupts { RXRDY: true, ..Interrupts::default() });
    assert_eq!(usart.registers().intenset, 0x2004);
    assert_eq!(Interrupts::default().mask(), 0);
    let all = Interrupts {
        RXRDY: true,
        TXRDY: true,
        TXIDLE: true,
        DELTACTS: true,
        TXDIS: true,
        OVERRUN: true,
        DELTARXBRK: true,
        START: true,
        FRAMERR: true,
        PARITYERR: true,
        RXNOISE: true,
        ABERR: true,
    };
    assert_eq!(all.mask(), 0x1f96d);
}

#[test]
fn flags_report_and_clear_when_they_need_reset() {
    let mut syscon = Handle::new();
    let mut usart = async_default(&mut syscon);
    assert!(usart.is_flag_set(Flag::TXRDY));
    assert!(usart.is_flag_set(Flag::TXRDY));
    assert!(usart.is_flag_set(Flag::TXIDLE));
    assert!(!usart.is_flag_set(Flag::RXRDY));
    usart.line_latch_status(STAT_OVERRUNINT);
    assert!(usart.is_flag_set(Flag::OVERRUNINT));
    assert!(!usart.is_flag_set(Flag::OVERRUNINT));
    usart.line_latch_status(STAT_RXBRK);
    assert!(usart.is_flag_set(Flag::RXBRK));
    assert!(usart.is_flag_set(Flag::RXBRK));
    assert_eq!(usart.registers().stat & (STAT_TXRDY | STAT_TXIDLE), STAT_TXRDY | STAT_TXIDLE);
}

#[test]
fn nvic_controls_touch_only_the_interrupt_line() {
    let mut syscon = Handle::new();
    let mut usart = async_default(&mut syscon);
    let intenset = usart.registers().intenset;
    usart.enable_in_nvic();
    let mut inst = usart.free();
    assert!(inst.nvic_enabled);
    inst.nvic_pending = true;
    let clock = Clock::new_with_baudrate(115200);
    let mut usart = USART::new(inst).enable_async(&clock, &mut syscon, (), (), Settings::default());
    usart.clear_nvic_pending();
    usart.disable_in_nvic();
    assert_eq!(usart.registers().intenset, intenset);
    let inst = usart.free();
    assert!(!inst.nvic_enabled);
    assert!(!inst.nvic_pending);
    assert_eq!(inst.number, 0);
}

#[test]
fn baudrate_round_trip() {
    for &(baud, brg, osr) in &[(115200u32, 19u16, 4u8), (9600, 77, 15), (12, 62499, 15)] {
        let clock = Clock::new_with_baudrate(baud);
        assert_eq!(clock.brgval(), brg);
        assert_eq!(clock.osrval(), osr);
        let rate = 12_000_000 / ((brg as u32 + 1) * (osr as u32 + 1));
        assert!(rate >= baud);
        assert!(20 * rate < 21 * baud);
    }
    let clock = Clock::new_with_baudrate(120_000);
    assert_eq!(clock.osrval(), 4);
    assert_eq!(clock.brgval(), 19);
}

#[test]
fn explicit_clock_values() {
    let c: Clock<Frg, AsyncMode> = Clock::new(&Frg, 0, 5);
    assert_eq!(c.osrval(), 4);
    assert_eq!(c.brgval(), 0);
    let s: Clock<Fro, SyncMode> = Clock::new_sync(&Fro, 9);
    assert_eq!(s.brgval(), 9);
    assert_eq!(s.osrval(), 0);
}
