//! The steady-state blink loop, under both timing policies.
//!
//! Once the sequencer is in the `Blinking` phase it inverts pin 4 of port B
//! over and over: the hardware-timer policy inverts on every observed wrap
//! of the countdown timer, the busy-wait policy on every
//! [`BUSY_WAIT_THRESHOLD`]th iteration. Every operation here keeps the
//! machine in `Blinking`; there is no path out of the loop.

use vstd::prelude::*;
use vstd::arithmetic::div_mod::lemma_fundamental_div_mod_converse;
use crate::regs::{bit_on, odr4, toggle_odr4};
use crate::sequencer::{Sequencer, Phase, TimingPolicy, BUSY_WAIT_THRESHOLD};

verus! {

/// Number of wrap events in a sequence of poll results.
pub open spec fn wrap_count(events: Seq<bool>) -> nat
    decreases events.len(),
{
    if events.len() == 0 {
        0
    } else {
        wrap_count(events.drop_last()) + if events.last() {
            1nat
        } else {
            0nat
        }
    }
}

/// The output level after `n` inversions of `level`.
pub open spec fn toggled(level: bool, n: nat) -> bool
    decreases n,
{
    if n == 0 {
        level
    } else {
        !toggled(level, (n - 1) as nat)
    }
}

/// Counter value after `ticks` busy-wait iterations starting from `c0`.
pub open spec fn busy_counter_after(c0: nat, ticks: nat) -> nat {
    (c0 + ticks) % (BUSY_WAIT_THRESHOLD as nat)
}

/// Number of output inversions over `ticks` busy-wait iterations starting
/// from `c0`.
pub open spec fn busy_toggle_count(c0: nat, ticks: nat) -> nat {
    (c0 + ticks) / (BUSY_WAIT_THRESHOLD as nat)
}

/// The level after `n` inversions depends only on the parity of `n`: an
/// even count restores the starting level, an odd count inverts it.
pub proof fn lemma_toggle_parity(level: bool, n: nat)
    ensures
        toggled(level, n) == (if n % 2 == 0 {
            level
        } else {
            !level
        }),
    decreases n,
{
    if n > 0 {
        lemma_toggle_parity(level, (n - 1) as nat);
    }
}

/// A full busy-wait pass — exactly [`BUSY_WAIT_THRESHOLD`] iterations from
/// a freshly reset counter — inverts the output exactly once and leaves the
/// counter at zero again.
pub proof fn lemma_full_busy_cycle(level: bool)
    ensures
        busy_counter_after(0, BUSY_WAIT_THRESHOLD as nat) == 0,
        busy_toggle_count(0, BUSY_WAIT_THRESHOLD as nat) == 1,
        toggled(level, busy_toggle_count(0, BUSY_WAIT_THRESHOLD as nat)) == !level,
{
    lemma_toggle_parity(level, busy_toggle_count(0, BUSY_WAIT_THRESHOLD as nat));
}

impl Sequencer {
    /// One pass of the timer-driven loop. `wrapped` is the wrap flag the
    /// poll of the countdown timer returned: on a wrap the output bit is
    /// inverted by read-modify-write, otherwise nothing is written.
    pub fn poll_step(&mut self, wrapped: bool)
        requires
            old(self).phase == Phase::Blinking,
            old(self).policy == TimingPolicy::HardwareTimer,
            old(self).wf(),
        ensures
            final(self).phase == Phase::Blinking,
            final(self).policy == old(self).policy,
            final(self).counter == old(self).counter,
            final(self).wf(),
            final(self).bank.same_but_odr(old(self).bank),
            forall|i: u32|
                i < 32 && i != 4 ==> bit_on(final(self).bank.gpiob_odr, i) == bit_on(
                    old(self).bank.gpiob_odr, i),
            odr4(final(self).bank.gpiob_odr) == (if wrapped {
                !odr4(old(self).bank.gpiob_odr)
            } else {
                odr4(old(self).bank.gpiob_odr)
            }),
            !wrapped ==> *final(self) == *old(self),
    {
        if wrapped {
            let inverted = toggle_odr4(self.bank.gpiob_odr);
            self.bank.write_gpiob_odr(inverted);
        }
    }

    /// One iteration of the busy-wait loop: count up; at the threshold,
    /// reset the counter and invert the output.
    pub fn busy_tick(&mut self)
        requires
            old(self).phase == Phase::Blinking,
            old(self).policy == TimingPolicy::BusyWait,
            old(self).wf(),
        ensures
            final(self).phase == Phase::Blinking,
            final(self).policy == old(self).policy,
            final(self).wf(),
            final(self).bank.same_but_odr(old(self).bank),
            old(self).counter + 1 == BUSY_WAIT_THRESHOLD ==> {
                &&& final(self).counter == 0
                &&& odr4(final(self).bank.gpiob_odr) == !odr4(old(self).bank.gpiob_odr)
                &&& forall|i: u32|
                    i < 32 && i != 4 ==> bit_on(final(self).bank.gpiob_odr, i) == bit_on(
                        old(self).bank.gpiob_odr, i)
            },
            old(self).counter + 1 < BUSY_WAIT_THRESHOLD ==> {
                &&& final(self).counter == old(self).counter + 1
                &&& final(self).bank == old(self).bank
            },
    {
        let next: u32 = self.counter + 1;
        if next == BUSY_WAIT_THRESHOLD {
            self.counter = 0;
            let inverted = toggle_odr4(self.bank.gpiob_odr);
            self.bank.write_gpiob_odr(inverted);
        } else {
            self.counter = next;
        }
    }

    /// Drive the timer policy through a whole sequence of poll results:
    /// the output ends up inverted exactly once per wrap event, and the
    /// machine never leaves the `Blinking` phase.
    pub fn run_polls(&mut self, wrap_events: &Vec<bool>)
        requires
            old(self).phase == Phase::Blinking,
            old(self).policy == TimingPolicy::HardwareTimer,
            old(self).wf(),
        ensures
            final(self).phase == Phase::Blinking,
            final(self).policy == old(self).policy,
            final(self).counter == old(self).counter,
            final(self).wf(),
            final(self).bank.same_but_odr(old(self).bank),
            forall|i: u32|
                i < 32 && i != 4 ==> bit_on(final(self).bank.gpiob_odr, i) == bit_on(
                    old(self).bank.gpiob_odr, i),
            odr4(final(self).bank.gpiob_odr) == toggled(
                odr4(old(self).bank.gpiob_odr),
                wrap_count(wrap_events@),
            ),
    {
        let ghost s0 = *self;
        let n: usize = wrap_events.len();
        let mut i: usize = 0;
        while i < n
            invariant
                i <= n,
                n == wrap_events.len(),
                self.phase == Phase::Blinking,
                self.policy == s0.policy,
                s0.policy == TimingPolicy::HardwareTimer,
                self.counter == s0.counter,
                self.wf(),
                self.bank.same_but_odr(s0.bank),
                forall|j: u32|
                    j < 32 && j != 4 ==> bit_on(self.bank.gpiob_odr, j) == bit_on(
                        s0.bank.gpiob_odr, j),
                odr4(self.bank.gpiob_odr) == toggled(
                    odr4(s0.bank.gpiob_odr),
                    wrap_count(wrap_events@.take(i as int)),
                ),
            decreases n - i,
        {
            let wrapped = wrap_events[i];
            proof {
                assert(wrap_events@.take(i as int + 1).drop_last() =~= wrap_events@.take(
                    i as int));
                assert(wrap_events@.take(i as int + 1).last() == wrap_events@[i as int]);
            }
            self.poll_step(wrapped);
            i = i + 1;
        }
        proof {
            assert(wrap_events@.take(n as int) =~= wrap_events@);
        }
    }

    /// Drive the busy-wait policy through `ticks` iterations: the counter
    /// advances modulo the threshold, the output is inverted once per
    /// completed threshold pass, and the machine never leaves the
    /// `Blinking` phase.
    pub fn run_busy_ticks(&mut self, ticks: u32)
        requires
            old(self).phase == Phase::Blinking,
            old(self).policy == TimingPolicy::BusyWait,
            old(self).wf(),
        ensures
            final(self).phase == Phase::Blinking,
            final(self).policy == old(self).policy,
            final(self).wf(),
            final(self).bank.same_but_odr(old(self).bank),
            forall|i: u32|
                i < 32 && i != 4 ==> bit_on(final(self).bank.gpiob_odr, i) == bit_on(
                    old(self).bank.gpiob_odr, i),
            final(self).counter == busy_counter_after(old(self).counter as nat, ticks as nat),
            odr4(final(self).bank.gpiob_odr) == toggled(
                odr4(old(self).bank.gpiob_odr),
                busy_toggle_count(old(self).counter as nat, ticks as nat),
            ),
    {
        let ghost s0 = *self;
        let ghost mut t: nat = 0nat;
        let mut i: u32 = 0;
        while i < ticks
            invariant
                i <= ticks,
                self.phase == Phase::Blinking,
                self.policy == s0.policy,
                s0.policy == TimingPolicy::BusyWait,
                self.wf(),
                self.bank.same_but_odr(s0.bank),
                forall|j: u32|
                    j < 32 && j != 4 ==> bit_on(self.bank.gpiob_odr, j) == bit_on(
                        s0.bank.gpiob_odr, j),
                self.counter + t * (BUSY_WAIT_THRESHOLD as int) == s0.counter + i,
                odr4(self.bank.gpiob_odr) == toggled(odr4(s0.bank.gpiob_odr), t),
            decreases ticks - i,
        {
            let ghost c_prev = self.counter;
            self.busy_tick();
            proof {
                if c_prev + 1 == BUSY_WAIT_THRESHOLD {
                    t = t + 1;
                }
            }
            i = i + 1;
        }
        proof {
            lemma_fundamental_div_mod_converse(
                s0.counter + ticks,
                BUSY_WAIT_THRESHOLD as int,
                t as int,
                self.counter as int,
            );
        }
    }
}

} // verus!
