use blinky::regs::toggle_odr4;
use blinky::sequencer::{Phase, Sequencer, TimingPolicy};

fn pin4_high(odr: u32) -> bool {
    (odr >> 4) & 1 == 1
}

#[test]
fn toggle_flips_pin4_and_nothing_else() {
    let word = 0b1010_0000_1111_0001;
    let flipped = toggle_odr4(word);
    assert_eq!(flipped, word ^ (1 << 4));
    assert_eq!(toggle_odr4(flipped), word);
}

#[test]
fn wrap_inverts_output_once_per_wrap() {
    let mut s = Sequencer::new(TimingPolicy::HardwareTimer);
    s.init();
    assert!(!pin4_high(s.bank.gpiob_odr));
    let mut count = 0u32;
    for _ in 0..7 {
        assert_eq!(s.phase, Phase::Blinking);
        s.poll_step(true);
        count += 1;
        // Parity of the wrap count determines the level.
        assert_eq!(pin4_high(s.bank.gpiob_odr), count % 2 == 1);
    }
    assert!(pin4_high(s.bank.gpiob_odr));
}

#[test]
fn poll_without_wrap_writes_nothing() {
    let mut s = Sequencer::new(TimingPolicy::HardwareTimer);
    s.init();
    let before = s.bank;
    s.poll_step(false);
    assert_eq!(s.bank, before);
    assert_eq!(s.phase, Phase::Blinking);
}

#[test]
fn run_polls_counts_only_wraps() {
    let mut s = Sequencer::new(TimingPolicy::HardwareTimer);
    s.init();
    // Three wraps among the polls: odd count, so the pin ends high.
    s.run_polls(&vec![true, false, false, true, true, false]);
    assert!(pin4_high(s.bank.gpiob_odr));
    // One more wrap: even in total, back to low.
    s.run_polls(&vec![false, true]);
    assert!(!pin4_high(s.bank.gpiob_odr));
}

#[test]
fn busy_ticks_count_without_inverting() {
    let mut s = Sequencer::new(TimingPolicy::BusyWait);
    s.init();
    for expected in 1..=5u32 {
        s.busy_tick();
        assert_eq!(s.counter, expected);
        assert!(!pin4_high(s.bank.gpiob_odr));
    }
}

#[test]
fn busy_wait_full_pass_inverts_once_and_resets_counter() {
    let mut s = Sequencer::new(TimingPolicy::BusyWait);
    s.init();
    let mut inversions = 0u32;
    let mut was_high = pin4_high(s.bank.gpiob_odr);
    for _ in 0..1_000_000u32 {
        s.busy_tick();
        let high = pin4_high(s.bank.gpiob_odr);
        if high != was_high {
            inversions += 1;
        }
        was_high = high;
    }
    assert_eq!(inversions, 1);
    assert!(pin4_high(s.bank.gpiob_odr));
    assert_eq!(s.counter, 0);
    assert_eq!(s.phase, Phase::Blinking);
}

#[test]
fn busy_wait_penultimate_tick_does_not_invert() {
    let mut s = Sequencer::new(TimingPolicy::BusyWait);
    s.init();
    s.run_busy_ticks(999_999);
    assert_eq!(s.counter, 999_999);
    assert!(!pin4_high(s.bank.gpiob_odr));
    s.busy_tick();
    assert_eq!(s.counter, 0);
    assert!(pin4_high(s.bank.gpiob_odr));
}

#[test]
fn busy_wait_two_full_passes_restore_the_level() {
    let mut s = Sequencer::new(TimingPolicy::BusyWait);
    s.init();
    s.run_busy_ticks(2_000_000);
    assert_eq!(s.counter, 0);
    assert!(!pin4_high(s.bank.gpiob_odr));
}

#[test]
fn steady_state_never_leaves_blinking() {
    let mut s = Sequencer::new(TimingPolicy::HardwareTimer);
    s.init();
    for i in 0..100 {
        s.poll_step(i % 3 == 0);
        assert_eq!(s.phase, Phase::Blinking);
    }
    let mut b = Sequencer::new(TimingPolicy::BusyWait);
    b.init();
    b.run_busy_ticks(3_456_789);
    assert_eq!(b.phase, Phase::Blinking);
}
