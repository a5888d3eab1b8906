//! Progress as integer parts per million, and its remapping into thirds.

use vstd::prelude::*;

verus! {

/// The whole of a progress range, in parts per million.
pub const FULL: u32 = 1000000;

/// The part of a stage's work that `done` of `total` units stands for,
/// in parts per million; `done` beyond `total` counts as `total`.
pub open spec fn local_ppm(done: nat, total: nat) -> nat
    recommends
        total > 0,
{
    let d = if done <= total { done } else { total };
    d * (FULL as nat) / total
}

/// The overall progress of local progress `local` in slot `slot` of three
/// equal, consecutive slots.
pub open spec fn slot_ppm(slot: nat, local: nat) -> nat {
    (slot * (FULL as nat) + local) / 3
}

/// Local progress of `done` out of `total` units.
pub fn fraction_ppm(done: u64, total: u64) -> (r: u32)
    requires
        total > 0,
    ensures
        r == local_ppm(done as nat, total as nat),
        r <= FULL,
{
    let d: u64 = if done <= total { done } else { total };
    let num: u128 = (d as u128) * (FULL as u128);
    proof {
        assert(num <= (total as u128) * (FULL as u128)) by (nonlinear_arith)
            requires
                num == (d as u128) * (FULL as u128),
                d <= total,
        ;
        assert(num / (total as u128) <= FULL as u128) by (nonlinear_arith)
            requires
                num <= (total as u128) * (FULL as u128),
                total > 0,
        ;
    }
    (num / (total as u128)) as u32
}

/// Remaps local progress into slot `slot` of three: slot 0 covers the first
/// third of the overall range, slot 2 the last.
pub fn scale_into_slot(slot: u32, local: u32) -> (r: u32)
    requires
        slot < 3,
        local <= FULL,
    ensures
        r == slot_ppm(slot as nat, local as nat),
        slot_ppm(slot as nat, 0) <= r <= slot_ppm(slot as nat + 1, 0),
        r <= FULL,
{
    (slot * FULL + local) / 3
}

} // verus!
