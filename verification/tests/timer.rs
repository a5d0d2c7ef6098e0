use gameboy::timer::Timer;

#[test]
fn overflow_sets_request_then_reloads_after_one_cycle() {
    // Counter one cycle from overflow at the fastest rate.
    let mut t = Timer {
        div: 0,
        tima: 0xFF,
        tma: 0xAB,
        tac: 0x05,
        acc: 15,
        reloading: false,
        irq: false,
    };
    t.advance(1);
    assert!(t.irq);
    assert_eq!(t.tima, 0);
    t.advance(1);
    assert_eq!(t.tima, 0xAB);
}

#[test]
fn reload_window_takes_a_late_write() {
    let mut t = Timer {
        div: 0,
        tima: 0xFF,
        tma: 0x10,
        tac: 0x05,
        acc: 15,
        reloading: false,
        irq: false,
    };
    t.advance(1);
    assert_eq!(t.tima, 0);
    // A write to the reload register during the one-cycle window changes
    // what is reloaded.
    t.tma = 0x77;
    t.advance(1);
    assert_eq!(t.tima, 0x77);
}

#[test]
fn counter_rate_divides_cycles() {
    // Rate 16: the counter moves once per 16 cycles.
    let mut t = Timer { div: 0, tima: 0, tma: 0, tac: 0x05, acc: 0, reloading: false, irq: false };
    t.advance(15);
    assert_eq!(t.tima, 0);
    t.advance(1);
    assert_eq!(t.tima, 1);
    t.advance(160);
    assert_eq!(t.tima, 11);
}

#[test]
fn disabled_counter_holds_still() {
    let mut t = Timer { div: 0, tima: 5, tma: 0, tac: 0x01, acc: 0, reloading: false, irq: false };
    t.advance(4096);
    assert_eq!(t.tima, 5);
    assert!(!t.irq);
    assert_eq!(t.div, 0); // 4096 divider increments wrap a byte evenly
}

#[test]
fn divider_runs_every_cycle() {
    let mut t = Timer::new();
    t.advance(7);
    assert_eq!(t.div, 7);
    t.advance(256);
    assert_eq!(t.div, 7);
}
