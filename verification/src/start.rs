//! The entry trampoline, run from reset until the core has settled.

use vstd::prelude::*;
use crate::layout::{core_id, is_primary, PRIMARY_CORE, STACK_TOP};
use crate::laws::{law_secondary_core_parks, lemma_primary_step, primary_inv, steps_left};
use crate::machine::{zero_fill, Machine, MachineView, Outcome, Site};

verus! {

/// Runs the trampoline on `cpu` from its first instruction until the core has
/// settled. The primary core ends at the kernel's entry point, with the stack
/// pointer set and the zero-initialised region cleared; every other core ends
/// at the head of the parking loop, with its stack pointer and the memory
/// untouched.
pub fn start(cpu: &mut Machine) -> (outcome: Outcome)
    requires
        old(cpu)@.fresh(),
    ensures
        final(cpu)@ == old(cpu)@.run(old(cpu)@.settle_steps()),
        final(cpu)@.layout == old(cpu)@.layout,
        final(cpu)@.mpidr == old(cpu)@.mpidr,
        is_primary(old(cpu)@.mpidr) ==> {
            &&& outcome == Outcome::HandedOff
            &&& final(cpu)@.site == Site::KernelEntry
            &&& final(cpu)@.sp == STACK_TOP
            &&& final(cpu)@.stores == old(cpu)@.layout.bss_words()
            &&& final(cpu)@.ram == zero_fill(
                old(cpu)@.ram,
                old(cpu)@.layout.bss_lo(),
                old(cpu)@.layout.bss_hi(),
            )
        },
        !is_primary(old(cpu)@.mpidr) ==> {
            &&& outcome == Outcome::Parked
            &&& final(cpu)@.site == Site::ParkWait
            &&& final(cpu)@.sp == old(cpu)@.sp
            &&& final(cpu)@.stores == 0
            &&& final(cpu)@.ram == old(cpu)@.ram
        },
{
    let ghost s0 = cpu@;
    if core_id(cpu.mpidr()) == PRIMARY_CORE {
        let ghost mut n: nat = 0;
        while cpu.site() != Site::KernelEntry
            invariant
                s0.fresh(),
                is_primary(s0.mpidr),
                primary_inv(s0, cpu@),
                cpu@ == s0.run(n),
                n + steps_left(cpu@) == s0.settle_steps(),
            decreases steps_left(cpu@),
        {
            proof {
                lemma_primary_step(s0, cpu@);
                n = n + 1;
            }
            cpu.step();
        }
        Outcome::HandedOff
    } else {
        cpu.step();
        cpu.step();
        cpu.step();
        cpu.step();
        proof {
            reveal_with_fuel(MachineView::run, 5);
            law_secondary_core_parks(s0, 4);
        }
        Outcome::Parked
    }
}

} // verus!
