//! Bit-level views of the registers the startup sequencer programs.
//!
//! Each register is held as a plain 32-bit word; the spec functions below
//! name the bitfields the sequencer reads and writes, at the positions the
//! device documents.

use vstd::prelude::*;

verus! {

/// True when bit `i` of `reg` is one.
pub open spec fn bit_on(reg: u32, i: u32) -> bool {
    reg & (1u32 << i) != 0
}

/// Debug-port multiplexing field of the remap register: bits 26..24.
pub open spec fn swj_cfg(mapr: u32) -> u32 {
    (mapr >> 24) & 0b111
}

/// Mode field of pin 4 in the port-B low configuration register: bits 17..16.
pub open spec fn mode4(crl: u32) -> u32 {
    (crl >> 16) & 0b11
}

/// Configuration field of pin 4 in the port-B low configuration register: bits 19..18.
pub open spec fn cnf4(crl: u32) -> u32 {
    (crl >> 18) & 0b11
}

/// Output level of pin 4: bit 4 of the output data register.
pub open spec fn odr4(odr: u32) -> bool {
    bit_on(odr, 4)
}

/// Read-modify-write inversion of pin 4's output bit, exactly as the
/// steady-state loop performs it: every other bit is written back unchanged.
pub fn toggle_odr4(odr: u32) -> (r: u32)
    ensures
        odr4(r) == !odr4(odr),
        forall|i: u32| i < 32 && i != 4 ==> bit_on(r, i) == bit_on(odr, i),
{
    proof {
        assert(odr4(odr ^ (1u32 << 4)) == !odr4(odr)) by (bit_vector);
        assert(forall|i: u32|
            i < 32 && i != 4 ==> bit_on(odr ^ (1u32 << 4), i) == bit_on(odr, i)) by (bit_vector);
    }
    odr ^ (1u32 << 4)
}

} // verus!
