//! What holds of every run of the trampoline and of the fault sink.

use vstd::prelude::*;
use crate::layout::{core_id_of, is_primary, STACK_TOP};
use crate::machine::{phase_of, zero_fill, MachineView, Phase, Site};

verus! {

/// The state of a core that is not the primary one, `n` instructions after a
/// start in `s0`: past the core check in four instructions, then to and fro
/// between the two instructions of the parking loop.
pub open spec fn secondary_at(s0: MachineView, n: nat) -> MachineView {
    if n == 0 {
        s0
    } else if n == 1 {
        MachineView { site: Site::MaskCoreId, x0: s0.mpidr, ..s0 }
    } else if n == 2 {
        MachineView { site: Site::CompareCoreId, x0: core_id_of(s0.mpidr), ..s0 }
    } else if n == 3 {
        MachineView { site: Site::SelectCore, x0: core_id_of(s0.mpidr), equal: false, ..s0 }
    } else {
        MachineView {
            site: if (n - 4) % 2 == 0 {
                Site::ParkWait
            } else {
                Site::ParkLoop
            },
            x0: core_id_of(s0.mpidr),
            equal: false,
            ..s0
        }
    }
}

/// What holds of the primary core while the zeroing loop runs: the stack
/// pointer is set, the pointer stands on a word boundary inside the region,
/// exactly the bytes of the region below it have been cleared, and that took
/// one store for each word.
pub open spec fn zeroing(s0: MachineView, s: MachineView) -> bool {
    &&& s.sp == STACK_TOP
    &&& 8 * s.stores == s.x0 - s.layout.bss_start
    &&& s.x1 == s.layout.bss_end
    &&& s.layout.bss_start <= s.x0 <= s.layout.bss_end
    &&& s.x0 % 8 == 0
    &&& s.ram == zero_fill(s0.ram, s.layout.bss_lo(), s.x0 - s.layout.ram_base)
}

/// What holds of the primary core before the zeroing loop: nothing has been
/// stored, and the memory is as it was at the start.
pub open spec fn untouched(s0: MachineView, s: MachineView) -> bool {
    s.ram == s0.ram && s.stores == 0
}

/// What holds of the primary core at each instruction of a run that started
/// in `s0`.
pub open spec fn primary_inv(s0: MachineView, s: MachineView) -> bool {
    &&& s.layout == s0.layout
    &&& s.mpidr == s0.mpidr
    &&& match s.site {
        Site::ReadCoreId => untouched(s0, s) && s.sp == s0.sp,
        Site::MaskCoreId => untouched(s0, s) && s.sp == s0.sp && s.x0 == s.mpidr,
        Site::CompareCoreId => untouched(s0, s) && s.sp == s0.sp && s.x0 == core_id_of(s.mpidr),
        Site::SelectCore => untouched(s0, s) && s.sp == s0.sp && s.equal,
        Site::SetStack => untouched(s0, s) && s.sp == s0.sp,
        Site::LoadBssStart => untouched(s0, s) && s.sp == STACK_TOP,
        Site::LoadBssEnd => untouched(s0, s) && s.sp == STACK_TOP && s.x0 == s.layout.bss_start,
        Site::CompareBounds | Site::LoopBack => zeroing(s0, s),
        Site::ExitIfDone => zeroing(s0, s) && s.equal == (s.x0 == s.x1),
        Site::StoreZero => zeroing(s0, s) && s.x0 < s.x1,
        Site::HandOff | Site::KernelEntry => zeroing(s0, s) && s.x0 == s.x1,
        Site::ParkWait | Site::ParkLoop | Site::FaultWait | Site::FaultLoop => false,
    }
}

/// The number of instructions that the primary core has still to execute
/// before it stands at the kernel's entry point.
pub open spec fn steps_left(s: MachineView) -> nat {
    let all = s.layout.bss_words();
    let rest = ((s.layout.bss_end - s.x0) / 8) as nat;
    match s.site {
        Site::ReadCoreId => 10 + 4 * all,
        Site::MaskCoreId => 9 + 4 * all,
        Site::CompareCoreId => 8 + 4 * all,
        Site::SelectCore => 7 + 4 * all,
        Site::SetStack => 6 + 4 * all,
        Site::LoadBssStart => 5 + 4 * all,
        Site::LoadBssEnd => 4 + 4 * all,
        Site::CompareBounds => 3 + 4 * rest,
        Site::ExitIfDone => 2 + 4 * rest,
        Site::StoreZero => 1 + 4 * rest,
        Site::LoopBack => 4 + 4 * rest,
        Site::HandOff => 1,
        _ => 0,
    }
}

/// One instruction of the primary core keeps what holds of it and brings it
/// one instruction nearer to the kernel's entry point.
pub proof fn lemma_primary_step(s0: MachineView, s: MachineView)
    requires
        s0.well_formed(),
        is_primary(s0.mpidr),
        primary_inv(s0, s),
        s.site != Site::KernelEntry,
    ensures
        primary_inv(s0, s.next()),
        steps_left(s.next()) + 1 == steps_left(s),
{
    let t = s.next();
    let lo = s.layout.bss_lo();
    match s.site {
        Site::LoadBssEnd => {
            assert(t.ram =~= zero_fill(s0.ram, lo, lo));
        },
        Site::StoreZero => {
            let at = s.x0 - s.layout.ram_base;
            assert(s.x0 + 8 <= s.x1);
            assert(t.x0 == s.x0 + 8);
            assert(t.ram =~= zero_fill(s0.ram, lo, at + 8));
        },
        _ => {},
    }
}

/// The primary core, `n` instructions into a run of at most as many as it
/// takes to settle.
proof fn lemma_primary_run(s0: MachineView, n: nat)
    requires
        s0.fresh(),
        is_primary(s0.mpidr),
        n <= s0.settle_steps(),
    ensures
        primary_inv(s0, s0.run(n)),
        steps_left(s0.run(n)) + n == s0.settle_steps(),
    decreases n,
{
    if n > 0 {
        lemma_primary_run(s0, (n - 1) as nat);
        lemma_primary_step(s0, s0.run((n - 1) as nat));
    }
}

/// Once at the kernel's entry point, the machine stays as it is.
proof fn lemma_settled_stays(s0: MachineView, m: nat, n: nat)
    requires
        s0.run(m).site == Site::KernelEntry,
        m <= n,
    ensures
        s0.run(n) == s0.run(m),
    decreases n,
{
    if n > m {
        lemma_settled_stays(s0, m, (n - 1) as nat);
    }
}

/// The primary core at any point of a run from a fresh start.
proof fn lemma_primary_always(s0: MachineView, n: nat)
    requires
        s0.fresh(),
        is_primary(s0.mpidr),
    ensures
        primary_inv(s0, s0.run(n)),
        n >= s0.settle_steps() ==> s0.run(n) == s0.run(s0.settle_steps()),
        s0.run(s0.settle_steps()).site == Site::KernelEntry,
{
    let all = s0.settle_steps();
    lemma_primary_run(s0, all);
    if n <= all {
        lemma_primary_run(s0, n);
    } else {
        lemma_settled_stays(s0, all, n);
    }
}

/// Whether phase `q` may come directly after phase `p`: the bring-up goes
/// through its phases in one order, and the only branch leads from the core
/// check into the parking loop.
pub open spec fn phase_follows(p: Phase, q: Phase) -> bool {
    match (p, q) {
        (Phase::Reset, Phase::Identified) => true,
        (Phase::Identified, Phase::Parked) => true,
        (Phase::Identified, Phase::StackReady) => true,
        (Phase::StackReady, Phase::BssCleared) => true,
        (Phase::BssCleared, Phase::HandedOff) => true,
        _ => false,
    }
}

/// An instruction leaves the core in its phase or takes it to a phase that
/// may follow. A parked core, a core that has been handed to the kernel and a
/// core in the fault sink stay in their phase.
pub proof fn law_phases_are_linear(s: MachineView)
    ensures
        phase_of(s.next().site) == phase_of(s.site) || phase_follows(
            phase_of(s.site),
            phase_of(s.next().site),
        ),
        phase_of(s.site) == Phase::Parked || phase_of(s.site) == Phase::HandedOff || phase_of(
            s.site,
        ) == Phase::Faulted ==> phase_of(s.next().site) == phase_of(s.site),
{
}

/// Only the store of the zeroing loop changes memory or counts as a store,
/// and only the instruction that sets the stack pointer changes it.
pub proof fn law_side_effects_are_local(s: MachineView)
    ensures
        s.site != Site::StoreZero ==> s.next().ram == s.ram && s.next().stores == s.stores,
        s.site != Site::SetStack ==> s.next().sp == s.sp,
        s.site == Site::SetStack ==> s.next().sp == STACK_TOP,
        s.site == Site::StoreZero ==> s.next().ram == zero_fill(
            s.ram,
            s.x0 - s.layout.ram_base,
            s.x0 - s.layout.ram_base + 8,
        ),
{
}

/// No instruction changes the layout, the affinity register or the size of the
/// memory.
pub proof fn law_run_keeps_configuration(s: MachineView, n: nat)
    ensures
        s.run(n).layout == s.layout,
        s.run(n).mpidr == s.mpidr,
        s.run(n).ram.len() == s.ram.len(),
        s.well_formed() ==> s.run(n).well_formed(),
    decreases n,
{
    if n > 0 {
        law_run_keeps_configuration(s, (n - 1) as nat);
    }
}

/// A core whose identifier is not the primary one goes from the core check
/// into the parking loop and stays there: once four instructions have run, the
/// program counter alternates between the loop's two instructions. Its stack
/// pointer and every byte of memory stay as they were at the start.
pub proof fn law_secondary_core_parks(s0: MachineView, n: nat)
    requires
        s0.site == Site::ReadCoreId,
        !is_primary(s0.mpidr),
    ensures
        s0.run(n) == secondary_at(s0, n),
        s0.run(n).sp == s0.sp,
        s0.run(n).ram == s0.ram,
        n >= 4 ==> phase_of(s0.run(n).site) == Phase::Parked,
        n >= 4 ==> s0.run(n).site == (if (n - 4) % 2 == 0 {
            Site::ParkWait
        } else {
            Site::ParkLoop
        }),
    decreases n,
{
    if n > 0 {
        law_secondary_core_parks(s0, (n - 1) as nat);
    }
}

/// The primary core reaches the kernel's entry point after ten instructions
/// and four more for each word of the zero-initialised region, and stays
/// there. Whenever its program counter stands at the jump to the kernel or
/// beyond it, the stack pointer holds the configured address.
pub proof fn law_primary_core_hands_off(s0: MachineView, n: nat)
    requires
        s0.fresh(),
        is_primary(s0.mpidr),
    ensures
        n >= s0.settle_steps() ==> s0.run(n).site == Site::KernelEntry,
        n < s0.settle_steps() ==> s0.run(n).site != Site::KernelEntry,
        s0.run(n).site == Site::HandOff || s0.run(n).site == Site::KernelEntry ==> s0.run(n).sp
            == STACK_TOP,
{
    lemma_primary_always(s0, n);
    if n < s0.settle_steps() {
        lemma_primary_run(s0, n);
    }
}

/// The zeroing pass of the primary core clears the zero-initialised region
/// and nothing else. Once the program counter stands at the jump to the kernel
/// or beyond it, every byte of the region reads as zero, and that took one
/// store for each word of the region. At every point of the run, every byte of
/// memory outside the region holds what it held at the start. Where the region
/// is empty, no store is ever executed and no byte of memory ever changes.
pub proof fn law_zeroing_pass_is_exact(s0: MachineView, n: nat)
    requires
        s0.fresh(),
        is_primary(s0.mpidr),
    ensures
        s0.run(n).ram.len() == s0.ram.len(),
        0 <= s0.layout.bss_lo() <= s0.layout.bss_hi() <= s0.ram.len(),
        s0.run(n).site == Site::HandOff || s0.run(n).site == Site::KernelEntry ==> s0.run(n).ram
            == zero_fill(s0.ram, s0.layout.bss_lo(), s0.layout.bss_hi()),
        s0.run(n).site == Site::HandOff || s0.run(n).site == Site::KernelEntry ==> forall|i: int|
            s0.layout.bss_lo() <= i < s0.layout.bss_hi() ==> #[trigger] s0.run(n).ram[i] == 0,
        forall|i: int|
            0 <= i < s0.ram.len() && !(s0.layout.bss_lo() <= i < s0.layout.bss_hi())
                ==> #[trigger] s0.run(n).ram[i] == s0.ram[i],
        s0.run(n).site == Site::HandOff || s0.run(n).site == Site::KernelEntry ==> s0.run(n).stores
            == s0.layout.bss_words(),
        s0.run(n).stores <= s0.layout.bss_words(),
        s0.layout.bss_start == s0.layout.bss_end ==> s0.run(n).ram == s0.ram,
        s0.layout.bss_start == s0.layout.bss_end ==> s0.run(n).site != Site::StoreZero,
        s0.layout.bss_start == s0.layout.bss_end ==> s0.settle_steps() == 10,
{
    lemma_primary_always(s0, n);
    if s0.layout.bss_start == s0.layout.bss_end {
        assert(zero_fill(s0.ram, s0.layout.bss_lo(), s0.layout.bss_lo()) =~= s0.ram);
    }
}

/// The primary core never parks and never enters the fault sink of its own
/// accord: at no point of its run does the program counter stand in either
/// idle loop.
pub proof fn law_primary_core_never_parks(s0: MachineView, n: nat)
    requires
        s0.fresh(),
        is_primary(s0.mpidr),
    ensures
        s0.run(n).site != Site::ParkWait,
        s0.run(n).site != Site::ParkLoop,
        phase_of(s0.run(n).site) != Phase::Parked,
        phase_of(s0.run(n).site) != Phase::Faulted,
{
    lemma_primary_always(s0, n);
}

/// After a fault was signalled in any state whatever, the core idles in the
/// fault sink for ever: the program counter alternates between the sink's two
/// instructions, and no register and no byte of memory changes.
pub proof fn law_fault_sink_never_exits(s: MachineView, n: nat)
    ensures
        s.faulted().run(n) == (MachineView {
            site: if n % 2 == 0 {
                Site::FaultWait
            } else {
                Site::FaultLoop
            },
            ..s
        }),
        phase_of(s.faulted().run(n).site) == Phase::Faulted,
    decreases n,
{
    if n > 0 {
        law_fault_sink_never_exits(s, (n - 1) as nat);
    }
}

} // verus!
