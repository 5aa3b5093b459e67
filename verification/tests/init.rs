use blinky::sequencer::{Phase, RegisterBank, Sequencer, TimingPolicy};

#[test]
fn new_machine_starts_initializing_at_reset() {
    let s = Sequencer::new(TimingPolicy::HardwareTimer);
    assert_eq!(s.phase, Phase::Initializing);
    assert_eq!(s.counter, 0);
    let r = RegisterBank::at_reset();
    assert_eq!(s.bank, r);
    assert_eq!(r.apb1enr, 0);
    assert_eq!(r.apb2enr, 0);
    assert_eq!(r.mapr, 0);
    assert_eq!(r.gpiob_crl, 0x4444_4444);
    assert_eq!(r.gpiob_odr, 0);
}

#[test]
fn init_selects_swd_only_debug_port() {
    let mut s = Sequencer::new(TimingPolicy::HardwareTimer);
    s.init();
    assert_eq!((s.bank.mapr >> 24) & 0b111, 0b010);
}

#[test]
fn init_configures_pin4_push_pull_output() {
    let mut s = Sequencer::new(TimingPolicy::HardwareTimer);
    s.init();
    assert_eq!((s.bank.gpiob_crl >> 16) & 0b11, 0b01);
    assert_eq!((s.bank.gpiob_crl >> 18) & 0b11, 0b00);
}

#[test]
fn init_keeps_other_pins_at_reset_configuration() {
    let mut s = Sequencer::new(TimingPolicy::BusyWait);
    s.init();
    assert_eq!(s.bank.gpiob_crl, 0x4441_4444);
}

#[test]
fn init_drives_output_low() {
    let mut s = Sequencer::new(TimingPolicy::HardwareTimer);
    s.init();
    assert_eq!((s.bank.gpiob_odr >> 4) & 1, 0);
    assert_eq!(s.bank.gpiob_odr, 0);
}

#[test]
fn init_enables_bus_clocks() {
    let mut s = Sequencer::new(TimingPolicy::HardwareTimer);
    s.init();
    // Power interface on bus 1.
    assert_eq!(s.bank.apb1enr, 1 << 28);
    // Ports A, B and D on bus 2; the transient alternate-function enable
    // was overwritten again by the port-clock write.
    assert_eq!(s.bank.apb2enr, (1 << 5) | (1 << 2) | (1 << 3));
}

#[test]
fn init_arms_timer_under_timer_policy() {
    let mut s = Sequencer::new(TimingPolicy::HardwareTimer);
    s.init();
    assert_eq!(s.bank.syst_rvr, 4_000_000);
    assert_eq!(s.bank.syst_cvr, 4_000_000);
    assert_eq!(s.bank.syst_csr, 0b101);
}

#[test]
fn init_leaves_timer_alone_under_busy_wait_policy() {
    let mut s = Sequencer::new(TimingPolicy::BusyWait);
    s.init();
    assert_eq!(s.bank.syst_rvr, 0);
    assert_eq!(s.bank.syst_cvr, 0);
    assert_eq!(s.bank.syst_csr, 0);
}

#[test]
fn init_enters_blinking_phase() {
    let mut s = Sequencer::new(TimingPolicy::HardwareTimer);
    s.init();
    assert_eq!(s.phase, Phase::Blinking);
    assert_eq!(s.policy, TimingPolicy::HardwareTimer);
    assert_eq!(s.counter, 0);
}
