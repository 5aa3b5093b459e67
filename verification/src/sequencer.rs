//! The startup sequencer: a bit-accurate model of the one-time boot
//! sequence.
//!
//! The sequencer owns a [`RegisterBank`], the model of every register the
//! firmware touches. [`Sequencer::init`] performs the boot writes — clock
//! enables, debug-pin remap, pin configuration, initial output level and,
//! under the hardware-timer policy, arming the countdown timer — and moves
//! the machine from its only other phase, `Initializing`, into `Blinking`,
//! which it never leaves.
//!
//! Register writes follow the device's write semantics: a write replaces
//! the whole register with its reset value, with the named fields set as
//! given.

use vstd::prelude::*;
use crate::regs::{bit_on, swj_cfg, mode4, cnf4, odr4};

verus! {

/// Value of the debug-port multiplexing field that frees the JTAG-reserved
/// pins for plain I/O while keeping the two-wire debug port.
pub const SWJ_CFG_SWD_ONLY: u32 = 0b010;

/// Reset value of the port-B low configuration register: every pin starts
/// as a floating input (mode `00`, configuration `01`).
pub const GPIOB_CRL_RESET: u32 = 0x4444_4444;

/// Tick count loaded into the countdown timer under the hardware-timer
/// policy.
pub const TIMER_RELOAD: u32 = 4_000_000;

/// Control word that enables the countdown timer with the processor clock
/// as its source.
pub const SYST_ENABLE_WITH_CPU_CLOCK: u32 = 0b101;

/// Number of busy-wait iterations between output inversions.
pub const BUSY_WAIT_THRESHOLD: u32 = 1_000_000;

/// Power-interface clock enable: bit 28 of the bus-1 enable register.
pub const PWREN_BIT: u32 = 28;

/// Alternate-function I/O clock enable: bit 0 of the bus-2 enable register.
pub const AFIOEN_BIT: u32 = 0;

/// Port-A clock enable: bit 2 of the bus-2 enable register.
pub const IOPAEN_BIT: u32 = 2;

/// Port-B clock enable: bit 3 of the bus-2 enable register.
pub const IOPBEN_BIT: u32 = 3;

/// Port-D clock enable: bit 5 of the bus-2 enable register.
pub const IOPDEN_BIT: u32 = 5;

/// The registers the firmware programs, each as the plain 32-bit word the
/// device holds.
#[derive(Clone, Copy, Debug, PartialEq, Eq, Structural)]
pub struct RegisterBank {
    /// Clock-enable register for peripheral bus 1.
    pub apb1enr: u32,
    /// Clock-enable register for peripheral bus 2.
    pub apb2enr: u32,
    /// Alternate-function remap register.
    pub mapr: u32,
    /// Port-B configuration register for pins 0..8.
    pub gpiob_crl: u32,
    /// Port-B output data register.
    pub gpiob_odr: u32,
    /// Countdown-timer reload value.
    pub syst_rvr: u32,
    /// Countdown-timer current value.
    pub syst_cvr: u32,
    /// Countdown-timer control and status word.
    pub syst_csr: u32,
}

impl RegisterBank {
    /// The bank as the device presents it at power-on.
    pub open spec fn reset_state() -> RegisterBank {
        RegisterBank {
            apb1enr: 0,
            apb2enr: 0,
            mapr: 0,
            gpiob_crl: GPIOB_CRL_RESET,
            gpiob_odr: 0,
            syst_rvr: 0,
            syst_cvr: 0,
            syst_csr: 0,
        }
    }

    /// True when `self` and `other` agree on every register except the
    /// port-B output data register.
    pub open spec fn same_but_odr(self, other: RegisterBank) -> bool {
        &&& self.apb1enr == other.apb1enr
        &&& self.apb2enr == other.apb2enr
        &&& self.mapr == other.mapr
        &&& self.gpiob_crl == other.gpiob_crl
        &&& self.syst_rvr == other.syst_rvr
        &&& self.syst_cvr == other.syst_cvr
        &&& self.syst_csr == other.syst_csr
    }

    /// Write the bus-1 clock-enable register. The clock controller itself
    /// is always accessible.
    pub fn write_apb1enr(&mut self, value: u32)
        ensures
            *final(self) == (RegisterBank { apb1enr: value, ..*old(self) }),
    {
        self.apb1enr = value;
    }

    /// Write the bus-2 clock-enable register. The clock controller itself
    /// is always accessible.
    pub fn write_apb2enr(&mut self, value: u32)
        ensures
            *final(self) == (RegisterBank { apb2enr: value, ..*old(self) }),
    {
        self.apb2enr = value;
    }

    /// Write the remap register. It sits in the alternate-function block,
    /// whose registers are only valid to access while the block's
    /// clock-enable bit is set.
    pub fn write_mapr(&mut self, value: u32)
        requires
            bit_on(old(self).apb2enr, AFIOEN_BIT),
        ensures
            *final(self) == (RegisterBank { mapr: value, ..*old(self) }),
    {
        self.mapr = value;
    }

    /// Write the port-B low configuration register, valid only while port
    /// B's clock-enable bit is set.
    pub fn write_gpiob_crl(&mut self, value: u32)
        requires
            bit_on(old(self).apb2enr, IOPBEN_BIT),
        ensures
            *final(self) == (RegisterBank { gpiob_crl: value, ..*old(self) }),
    {
        self.gpiob_crl = value;
    }

    /// Write the port-B output data register, valid only while port B's
    /// clock-enable bit is set.
    pub fn write_gpiob_odr(&mut self, value: u32)
        requires
            bit_on(old(self).apb2enr, IOPBEN_BIT),
        ensures
            *final(self) == (RegisterBank { gpiob_odr: value, ..*old(self) }),
    {
        self.gpiob_odr = value;
    }

    /// Program the countdown timer: reload and current value take the tick
    /// count, the control word enables it. The timer is a processor-core
    /// peripheral and is always accessible.
    pub fn arm_timer(&mut self, reload: u32, control: u32)
        ensures
            *final(self) == (RegisterBank {
                syst_rvr: reload,
                syst_cvr: reload,
                syst_csr: control,
                ..*old(self)
            }),
    {
        self.syst_rvr = reload;
        self.syst_cvr = reload;
        self.syst_csr = control;
    }

    /// Construct the bank at its power-on state.
    pub fn at_reset() -> (bank: RegisterBank)
        ensures
            bank == RegisterBank::reset_state(),
    {
        RegisterBank {
            apb1enr: 0,
            apb2enr: 0,
            mapr: 0,
            gpiob_crl: GPIOB_CRL_RESET,
            gpiob_odr: 0,
            syst_rvr: 0,
            syst_cvr: 0,
            syst_csr: 0,
        }
    }
}

/// How the steady-state loop decides when to invert the output.
#[derive(Clone, Copy, Debug, PartialEq, Eq, Structural)]
pub enum TimingPolicy {
    /// Poll the countdown timer's wrap flag.
    HardwareTimer,
    /// Count iterations up to [`BUSY_WAIT_THRESHOLD`].
    BusyWait,
}

/// The two phases of the process: the one-time boot sequence, then the
/// endless blink loop. There is no terminal phase.
#[derive(Clone, Copy, Debug, PartialEq, Eq, Structural)]
pub enum Phase {
    Initializing,
    Blinking,
}

/// The whole machine: the register model, the phase, the timing policy and
/// the busy-wait iteration counter.
#[derive(Clone, Copy, Debug, PartialEq, Eq, Structural)]
pub struct Sequencer {
    pub bank: RegisterBank,
    pub phase: Phase,
    pub policy: TimingPolicy,
    /// Busy-wait iteration count since the last inversion; unused by the
    /// hardware-timer policy.
    pub counter: u32,
}

impl Sequencer {
    /// Between calls, the counter stays below the busy-wait threshold, and
    /// while the machine blinks, port B — whose output register the loop
    /// keeps rewriting — stays clocked.
    pub open spec fn wf(self) -> bool {
        &&& self.counter < BUSY_WAIT_THRESHOLD
        &&& (self.phase == Phase::Blinking ==> bit_on(self.bank.apb2enr, IOPBEN_BIT))
    }

    /// A machine at power-on, before any register has been written.
    pub fn new(policy: TimingPolicy) -> (s: Sequencer)
        ensures
            s.phase == Phase::Initializing,
            s.policy == policy,
            s.counter == 0,
            s.bank == RegisterBank::reset_state(),
            s.wf(),
    {
        Sequencer {
            bank: RegisterBank::at_reset(),
            phase: Phase::Initializing,
            policy,
            counter: 0,
        }
    }

    /// The one-time boot sequence: enable the bus clocks, remap the
    /// debug-reserved pin to plain I/O, configure pin 4 of port B as a
    /// push-pull output, drive it low, and — under the hardware-timer
    /// policy — arm the countdown timer.
    pub fn init(&mut self)
        requires
            old(self).phase == Phase::Initializing,
        ensures
            final(self).phase == Phase::Blinking,
            final(self).policy == old(self).policy,
            final(self).counter == 0,
            final(self).wf(),
            // Exact register contents after the sequence.
            final(self).bank.apb1enr == (1u32 << PWREN_BIT),
            final(self).bank.apb2enr == ((1u32 << IOPDEN_BIT) | (1u32 << IOPAEN_BIT) | (1u32
                << IOPBEN_BIT)),
            final(self).bank.mapr == (SWJ_CFG_SWD_ONLY << 24),
            final(self).bank.gpiob_crl == ((GPIOB_CRL_RESET & !(0b1111u32 << 16)) | (0b01u32 << 16)),
            final(self).bank.gpiob_odr == 0,
            // The named bitfields those words carry.
            bit_on(final(self).bank.apb1enr, PWREN_BIT),
            bit_on(final(self).bank.apb2enr, IOPAEN_BIT),
            bit_on(final(self).bank.apb2enr, IOPBEN_BIT),
            bit_on(final(self).bank.apb2enr, IOPDEN_BIT),
            swj_cfg(final(self).bank.mapr) == SWJ_CFG_SWD_ONLY,
            mode4(final(self).bank.gpiob_crl) == 0b01,
            cnf4(final(self).bank.gpiob_crl) == 0b00,
            forall|i: u32|
                i < 32 && !(16 <= i < 20) ==> bit_on(final(self).bank.gpiob_crl, i) == bit_on(
                    GPIOB_CRL_RESET, i),
            !odr4(final(self).bank.gpiob_odr),
            // The countdown timer is armed only under the hardware-timer policy.
            old(self).policy == TimingPolicy::HardwareTimer ==> {
                &&& final(self).bank.syst_rvr == TIMER_RELOAD
                &&& final(self).bank.syst_cvr == TIMER_RELOAD
                &&& final(self).bank.syst_csr == SYST_ENABLE_WITH_CPU_CLOCK
            },
            old(self).policy == TimingPolicy::BusyWait ==> {
                &&& final(self).bank.syst_rvr == old(self).bank.syst_rvr
                &&& final(self).bank.syst_cvr == old(self).bank.syst_cvr
                &&& final(self).bank.syst_csr == old(self).bank.syst_csr
            },
    {
        // Clock to the power interface on bus 1.
        self.bank.write_apb1enr(1u32 << PWREN_BIT);
        // Clock to the alternate-function I/O block, needed for the remap
        // write below.
        self.bank.write_apb2enr(1u32 << AFIOEN_BIT);
        proof {
            assert(bit_on(1u32 << AFIOEN_BIT, AFIOEN_BIT)) by (bit_vector);
        }
        // Pin 4 of port B powers on routed to the JTAG debug port and
        // cannot be driven low until the port is reduced to two-wire debug.
        self.bank.write_mapr(SWJ_CFG_SWD_ONLY << 24);
        // Clocks to the I/O ports. A whole-register write: the
        // alternate-function enable from above is dropped again here, as
        // the boot sequence wrote it.
        self.bank.write_apb2enr((1u32 << IOPDEN_BIT) | (1u32 << IOPAEN_BIT) | (1u32 << IOPBEN_BIT));
        proof {
            assert(bit_on((1u32 << IOPDEN_BIT) | (1u32 << IOPAEN_BIT) | (1u32 << IOPBEN_BIT),
                IOPAEN_BIT)) by (bit_vector);
            assert(bit_on((1u32 << IOPDEN_BIT) | (1u32 << IOPAEN_BIT) | (1u32 << IOPBEN_BIT),
                IOPBEN_BIT)) by (bit_vector);
            assert(bit_on((1u32 << IOPDEN_BIT) | (1u32 << IOPAEN_BIT) | (1u32 << IOPBEN_BIT),
                IOPDEN_BIT)) by (bit_vector);
        }
        // Pin 4: output mode at the slow slew rate (`01`), push-pull (`00`);
        // the other pins keep their reset configuration.
        self.bank.write_gpiob_crl((GPIOB_CRL_RESET & !(0b1111u32 << 16)) | (0b01u32 << 16));
        // Known initial level: logic low on the whole port.
        self.bank.write_gpiob_odr(0);
        if self.policy == TimingPolicy::HardwareTimer {
            self.bank.arm_timer(TIMER_RELOAD, SYST_ENABLE_WITH_CPU_CLOCK);
        }
        self.counter = 0;
        self.phase = Phase::Blinking;
        proof {
            assert(bit_on(1u32 << PWREN_BIT, PWREN_BIT)) by (bit_vector);
            assert(swj_cfg(SWJ_CFG_SWD_ONLY << 24) == SWJ_CFG_SWD_ONLY) by (bit_vector);
            assert(mode4((GPIOB_CRL_RESET & !(0b1111u32 << 16)) | (0b01u32 << 16)) == 0b01)
                by (bit_vector);
            assert(cnf4((GPIOB_CRL_RESET & !(0b1111u32 << 16)) | (0b01u32 << 16)) == 0b00)
                by (bit_vector);
            assert(forall|i: u32|
                i < 32 && !(16 <= i < 20) ==> bit_on(
                    (GPIOB_CRL_RESET & !(0b1111u32 << 16)) | (0b01u32 << 16),
                    i,
                ) == bit_on(GPIOB_CRL_RESET, i)) by (bit_vector);
            assert(!odr4(0)) by (bit_vector);
        }
    }
}

} // verus!
