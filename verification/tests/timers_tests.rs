use gbmu::mmu::timers::{Timers, DIV_ADDR, TAC_ADDR, TIMA_ADDR, TMA_ADDR};

#[test]
fn test_default() {
    let timer = Timers::default();
    assert_eq!(timer.div, 0);
    assert_eq!(timer.tima, 0);
    assert_eq!(timer.tma, 0);
    assert_eq!(timer.tac, 0);
}

#[test]
fn test_div_is_ticking_once_by_tick() {
    let mut timer = Timers::default();

    for _ in 0..20 {
        timer.tick();
    }

    assert_eq!(timer.div, 20);
}

#[test]
fn test_div_reset_when_written_to() {
    let mut timer = Timers::default();

    timer.tick();
    assert_ne!(timer.div, 0);
    timer.write_byte(DIV_ADDR, 27);
    assert_eq!(timer.div, 0);
}

#[test]
fn test_other_than_div_register_has_read_and_write_possible() {
    let addrs = vec![TIMA_ADDR, TMA_ADDR, TAC_ADDR];
    let mut timers = Timers::default();
    let value = 42;

    for addr in &addrs {
        timers.write_byte(*addr, value);
    }
    assert_eq!(value, timers.tima);
    assert_eq!(value, timers.tma);
    assert_eq!(value, timers.tac);

    for addr in addrs {
        assert_eq!(value, timers.read_byte(addr));
    }
}

#[test]
fn test_tac_disable_tima_ticking() {
    let mut timers = Timers::default();

    for _ in 0..66000 {
        timers.tick();
    }
    assert_eq!(0, timers.tima);

    timers.write_byte(TAC_ADDR, 0b101);
    for _ in 0..66000 {
        timers.tick();
    }
    assert_ne!(0, timers.tima);
}

#[test]
fn test_tima_tick_at_good_pace_bit_3() {
    let mut timers = Timers::default();

    timers.write_byte(TAC_ADDR, 0b101);
    for _ in 0..15 {
        timers.tick();
        assert_eq!(0, timers.tima);
    }
    timers.tick();
    assert_eq!(1, timers.tima);
}

#[test]
fn test_tima_tick_at_good_pace_bit_5() {
    let mut timers = Timers::default();

    timers.write_byte(TAC_ADDR, 0b110);
    for _ in 0..63 {
        timers.tick();
        assert_eq!(0, timers.tima);
    }
    timers.tick();
    assert_eq!(1, timers.tima);
}

#[test]
fn test_tima_tick_at_good_pace_bit_7() {
    let mut timers = Timers::default();

    timers.write_byte(TAC_ADDR, 0b111);
    for _ in 0..255 {
        timers.tick();
        assert_eq!(0, timers.tima);
    }
    timers.tick();
    assert_eq!(1, timers.tima);
}

#[test]
fn test_tima_tick_at_good_pace_bit_9() {
    let mut timers = Timers::default();

    timers.write_byte(TAC_ADDR, 0b100);
    for _ in 0..1023 {
        timers.tick();
        assert_eq!(0, timers.tima);
    }
    timers.tick();
    assert_eq!(1, timers.tima);
}

#[test]
fn test_timer_tick_overflowing_returns_true() {
    let mut timers = Timers { tima: 0xFF, ..Timers::default() };
    timers.write_byte(TAC_ADDR, 0b101);
    for a in 0..15 {
        assert_eq!(false, timers.tick(), "overflow coming for : {a}");
    }
    assert_eq!(true, timers.tick());
}

#[test]
fn test_timer_overflowing_reset_tima_to_tma() {
    let mut timers = Timers { tima: 0xFF, tma: 0x53, ..Timers::default() };
    timers.write_byte(TAC_ADDR, 0b101);
    for _ in 0..=15 {
        timers.tick();
    }
    assert_eq!(timers.tima, timers.tma);
}
