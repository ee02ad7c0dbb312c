//! One core executing the entry trampoline and the fault sink, an instruction
//! at a time.

use vstd::prelude::*;
use crate::laws::law_run_keeps_configuration;
use crate::layout::{core_id_of, ConfigError, Layout, CORE_MASK, PRIMARY_CORE, STACK_TOP, WORD};

verus! {

/// Where the program counter stands: one value for each instruction of the
/// trampoline and of the fault sink, and one for the kernel's entry point.
#[derive(Clone, Copy, Debug, PartialEq, Eq, Structural)]
pub enum Site {
    /// `mrs x0, MPIDR_EL1`: read the affinity register.
    ReadCoreId,
    /// `and x0, x0, 0b11`: keep the bits that tell the cores apart.
    MaskCoreId,
    /// `cmp x0, 0`: compare with the primary core's identifier.
    CompareCoreId,
    /// `b.eq`: the primary core goes on, every other core falls into the
    /// parking loop.
    SelectCore,
    /// `wfe`, first instruction of the parking loop.
    ParkWait,
    /// `b`, back to the wait of the parking loop.
    ParkLoop,
    /// `mov sp, #0x1FFF0000`: set the stack pointer.
    SetStack,
    /// `ldr x0, =bss_start`.
    LoadBssStart,
    /// `ldr x1, =bss_end`.
    LoadBssEnd,
    /// `cmp x0, x1`: head of the zeroing loop.
    CompareBounds,
    /// `b.eq`: leave the zeroing loop once the pointer has reached the end.
    ExitIfDone,
    /// `str xzr, [x0], #8`: clear one word and advance the pointer.
    StoreZero,
    /// `b`, back to the head of the zeroing loop.
    LoopBack,
    /// `b main`: the jump to the kernel.
    HandOff,
    /// The kernel's entry point. The trampoline's work ends here.
    KernelEntry,
    /// `wfe`, first instruction of the fault sink.
    FaultWait,
    /// `b`, back to the wait of the fault sink.
    FaultLoop,
}

/// How far the bring-up of a core has come.
#[derive(Clone, Copy, Debug, PartialEq, Eq, Structural)]
pub enum Phase {
    /// Nothing is known of the core yet.
    Reset,
    /// The core identifier has been extracted.
    Identified,
    /// The core is not the primary one and idles forever.
    Parked,
    /// The stack pointer is set.
    StackReady,
    /// The zero-initialised region has been cleared.
    BssCleared,
    /// Control has passed to the kernel.
    HandedOff,
    /// The core idles forever in the fault sink.
    Faulted,
}

/// How a boot ended.
#[derive(Clone, Copy, Debug, PartialEq, Eq, Structural)]
pub enum Outcome {
    /// The core was the primary one and has reached the kernel's entry point.
    HandedOff,
    /// The core was not the primary one and has entered the parking loop.
    Parked,
}

/// The phase that a program counter at `site` belongs to.
pub open spec fn phase_of(site: Site) -> Phase {
    match site {
        Site::ReadCoreId | Site::MaskCoreId => Phase::Reset,
        Site::CompareCoreId | Site::SelectCore | Site::SetStack => Phase::Identified,
        Site::ParkWait | Site::ParkLoop => Phase::Parked,
        Site::LoadBssStart | Site::LoadBssEnd | Site::CompareBounds | Site::ExitIfDone
        | Site::StoreZero | Site::LoopBack => Phase::StackReady,
        Site::HandOff => Phase::BssCleared,
        Site::KernelEntry => Phase::HandedOff,
        Site::FaultWait | Site::FaultLoop => Phase::Faulted,
    }
}

/// `ram` with every byte at an offset in `[lo, hi)` set to zero.
pub open spec fn zero_fill(ram: Seq<u8>, lo: int, hi: int) -> Seq<u8> {
    Seq::new(ram.len(), |i: int| if lo <= i < hi { 0u8 } else { ram[i] })
}

/// The pointer after a post-indexed store of one word: eight more, modulo the
/// width of a register.
pub open spec fn advance(addr: u64) -> u64 {
    if addr + WORD > u64::MAX {
        (addr + WORD - 0x1_0000_0000_0000_0000) as u64
    } else {
        (addr + WORD) as u64
    }
}

/// The state of the emulated core and its memory.
pub struct MachineView {
    /// The layout that the code was linked against.
    pub layout: Layout,
    /// The affinity register of this core.
    pub mpidr: u64,
    /// The program counter.
    pub site: Site,
    /// Register `x0`.
    pub x0: u64,
    /// Register `x1`.
    pub x1: u64,
    /// The stack pointer.
    pub sp: u64,
    /// The flag that the last comparison set: its operands were equal.
    pub equal: bool,
    /// The memory, byte by byte from `layout.ram_base` on.
    pub ram: Seq<u8>,
    /// The number of stores executed so far. The count stops at the largest
    /// value that it can hold.
    pub stores: u64,
}

impl MachineView {
    /// The state after the instruction at the program counter has executed.
    /// At the kernel's entry point nothing changes any more.
    pub open spec fn next(self) -> MachineView {
        match self.site {
            Site::ReadCoreId => MachineView { site: Site::MaskCoreId, x0: self.mpidr, ..self },
            Site::MaskCoreId => MachineView {
                site: Site::CompareCoreId,
                x0: self.x0 & CORE_MASK,
                ..self
            },
            Site::CompareCoreId => MachineView {
                site: Site::SelectCore,
                equal: self.x0 == PRIMARY_CORE,
                ..self
            },
            Site::SelectCore => MachineView {
                site: if self.equal {
                    Site::SetStack
                } else {
                    Site::ParkWait
                },
                ..self
            },
            Site::ParkWait => MachineView { site: Site::ParkLoop, ..self },
            Site::ParkLoop => MachineView { site: Site::ParkWait, ..self },
            Site::SetStack => MachineView { site: Site::LoadBssStart, sp: STACK_TOP, ..self },
            Site::LoadBssStart => MachineView {
                site: Site::LoadBssEnd,
                x0: self.layout.bss_start,
                ..self
            },
            Site::LoadBssEnd => MachineView {
                site: Site::CompareBounds,
                x1: self.layout.bss_end,
                ..self
            },
            Site::CompareBounds => MachineView {
                site: Site::ExitIfDone,
                equal: self.x0 == self.x1,
                ..self
            },
            Site::ExitIfDone => MachineView {
                site: if self.equal {
                    Site::HandOff
                } else {
                    Site::StoreZero
                },
                ..self
            },
            Site::StoreZero => MachineView {
                site: Site::LoopBack,
                x0: advance(self.x0),
                ram: zero_fill(
                    self.ram,
                    self.x0 - self.layout.ram_base,
                    self.x0 - self.layout.ram_base + WORD,
                ),
                stores: if self.stores < u64::MAX {
                    (self.stores + 1) as u64
                } else {
                    self.stores
                },
                ..self
            },
            Site::LoopBack => MachineView { site: Site::CompareBounds, ..self },
            Site::HandOff => MachineView { site: Site::KernelEntry, ..self },
            Site::KernelEntry => self,
            Site::FaultWait => MachineView { site: Site::FaultLoop, ..self },
            Site::FaultLoop => MachineView { site: Site::FaultWait, ..self },
        }
    }

    /// The state after `steps` instructions.
    pub open spec fn run(self, steps: nat) -> MachineView
        decreases steps,
    {
        if steps == 0 {
            self
        } else {
            self.run((steps - 1) as nat).next()
        }
    }

    /// The state after a fault was signalled: the program counter stands at
    /// the fault sink, and nothing else has changed.
    pub open spec fn faulted(self) -> MachineView {
        MachineView { site: Site::FaultWait, ..self }
    }

    /// The layout is valid and the memory has the length that it names.
    pub open spec fn well_formed(self) -> bool {
        self.layout.valid() && self.ram.len() == self.layout.ram_len
    }

    /// A well-formed machine whose program counter stands at the first
    /// instruction of the trampoline and that has stored nothing yet.
    /// Registers and flag hold anything.
    pub open spec fn fresh(self) -> bool {
        self.well_formed() && self.site == Site::ReadCoreId && self.stores == 0
    }

    /// The number of instructions from the first one to the point where the
    /// core has settled: the kernel's entry point for the primary core, the
    /// parking loop for every other.
    pub open spec fn settle_steps(self) -> nat {
        if core_id_of(self.mpidr) == PRIMARY_CORE {
            10 + 4 * self.layout.bss_words()
        } else {
            4
        }
    }
}

/// The state of a machine right after reset: the program counter at the first
/// instruction, registers and flag cleared.
pub open spec fn at_reset(layout: Layout, mpidr: u64, sp: u64, ram: Seq<u8>) -> MachineView {
    MachineView {
        layout,
        mpidr,
        site: Site::ReadCoreId,
        x0: 0,
        x1: 0,
        sp,
        equal: false,
        ram,
        stores: 0,
    }
}

/// What stops a reset with this layout and an image of `image_len` bytes, if
/// anything does.
pub open spec fn reset_defect(layout: Layout, image_len: nat) -> Option<ConfigError> {
    if layout.defect().is_some() {
        layout.defect()
    } else if image_len != layout.ram_len {
        Some(ConfigError::ImageSize)
    } else {
        None
    }
}

/// An emulated core with its memory.
#[derive(Debug)]
pub struct Machine {
    layout: Layout,
    mpidr: u64,
    site: Site,
    x0: u64,
    x1: u64,
    sp: u64,
    equal: bool,
    ram: Vec<u8>,
    stores: u64,
}

impl View for Machine {
    type V = MachineView;

    closed spec fn view(&self) -> MachineView {
        MachineView {
            layout: self.layout,
            mpidr: self.mpidr,
            site: self.site,
            x0: self.x0,
            x1: self.x1,
            sp: self.sp,
            equal: self.equal,
            ram: self.ram@,
            stores: self.stores,
        }
    }
}

/// Clears the eight bytes at address `addr` of a memory that starts at address
/// `base`. A byte that lies outside the memory is left out.
fn clear_word(ram: &mut Vec<u8>, base: u64, addr: u64)
    ensures
        final(ram)@ == zero_fill(old(ram)@, addr - base, addr - base + WORD),
{
    let ghost before = ram@;
    let len: usize = ram.len();
    let mut i: u64 = 0;
    proof {
        assert(ram@ =~= zero_fill(before, addr - base, addr - base + i));
    }
    while i < WORD
        invariant
            i <= WORD,
            len == ram@.len(),
            ram@ == zero_fill(before, addr - base, addr - base + i),
        decreases WORD - i,
    {
        let target: Option<u64> = if addr >= base {
            if addr - base <= u64::MAX - i {
                Some(addr - base + i)
            } else {
                None
            }
        } else if i >= base - addr {
            Some(i - (base - addr))
        } else {
            None
        };
        match target {
            Some(off) => {
                if off < len as u64 {
                    ram.set(off as usize, 0);
                }
            },
            None => {},
        }
        i += 1;
        proof {
            assert(ram@ =~= zero_fill(before, addr - base, addr - base + i));
        }
    }
}

impl Machine {
    /// Sets up a core in its reset state: the program counter at the first
    /// instruction of the trampoline, the stack pointer at `sp`, the memory
    /// holding `ram`. Fails where the layout breaks a rule or `ram` has not the
    /// length that the layout names.
    pub fn reset(layout: Layout, mpidr: u64, sp: u64, ram: Vec<u8>) -> (r: Result<
        Machine,
        ConfigError,
    >)
        ensures
            r.is_ok() <==> layout.valid() && ram@.len() == layout.ram_len,
            match r {
                Ok(m) => m@ == at_reset(layout, mpidr, sp, ram@) && m@.fresh(),
                Err(e) => reset_defect(layout, ram@.len()) == Some(e),
            },
    {
        match layout.validate() {
            Err(e) => { return Err(e); },
            Ok(_) => {},
        }
        if ram.len() as u64 != layout.ram_len {
            return Err(ConfigError::ImageSize);
        }
        Ok(
            Machine {
                layout,
                mpidr,
                site: Site::ReadCoreId,
                x0: 0,
                x1: 0,
                sp,
                equal: false,
                ram,
                stores: 0,
            },
        )
    }

    /// Executes the instruction at the program counter.
    pub fn step(&mut self)
        ensures
            final(self)@ == old(self)@.next(),
    {
        match self.site {
            Site::ReadCoreId => {
                self.x0 = self.mpidr;
                self.site = Site::MaskCoreId;
            },
            Site::MaskCoreId => {
                self.x0 = self.x0 & CORE_MASK;
                self.site = Site::CompareCoreId;
            },
            Site::CompareCoreId => {
                self.equal = self.x0 == PRIMARY_CORE;
                self.site = Site::SelectCore;
            },
            Site::SelectCore => {
                self.site = if self.equal {
                    Site::SetStack
                } else {
                    Site::ParkWait
                };
            },
            Site::ParkWait => {
                self.site = Site::ParkLoop;
            },
            Site::ParkLoop => {
                self.site = Site::ParkWait;
            },
            Site::SetStack => {
                self.sp = STACK_TOP;
                self.site = Site::LoadBssStart;
            },
            Site::LoadBssStart => {
                self.x0 = self.layout.bss_start;
                self.site = Site::LoadBssEnd;
            },
            Site::LoadBssEnd => {
                self.x1 = self.layout.bss_end;
                self.site = Site::CompareBounds;
            },
            Site::CompareBounds => {
                self.equal = self.x0 == self.x1;
                self.site = Site::ExitIfDone;
            },
            Site::ExitIfDone => {
                self.site = if self.equal {
                    Site::HandOff
                } else {
                    Site::StoreZero
                };
            },
            Site::StoreZero => {
                clear_word(&mut self.ram, self.layout.ram_base, self.x0);
                self.x0 = if self.x0 > u64::MAX - WORD {
                    self.x0 - (u64::MAX - WORD) - 1
                } else {
                    self.x0 + WORD
                };
                if self.stores < u64::MAX {
                    self.stores = self.stores + 1;
                }
                self.site = Site::LoopBack;
            },
            Site::LoopBack => {
                self.site = Site::CompareBounds;
            },
            Site::HandOff => {
                self.site = Site::KernelEntry;
            },
            Site::KernelEntry => {},
            Site::FaultWait => {
                self.site = Site::FaultLoop;
            },
            Site::FaultLoop => {
                self.site = Site::FaultWait;
            },
        }
    }

    /// Executes `steps` instructions and returns the trace: the program counter
    /// after each of them.
    pub fn run(&mut self, steps: u64) -> (trace: Vec<Site>)
        ensures
            final(self)@ == old(self)@.run(steps as nat),
            final(self)@.layout == old(self)@.layout,
            final(self)@.mpidr == old(self)@.mpidr,
            final(self)@.ram.len() == old(self)@.ram.len(),
            trace@.len() == steps,
            forall|i: int| 0 <= i < steps ==> trace@[i] == (#[trigger] old(self)@.run((i + 1) as nat)).site,
    {
        let ghost start = self@;
        let mut trace: Vec<Site> = Vec::new();
        let mut done: u64 = 0;
        while done < steps
            invariant
                done <= steps,
                self@ == start.run(done as nat),
                trace@.len() == done,
                forall|i: int| 0 <= i < done ==> trace@[i] == (#[trigger] start.run((i + 1) as nat)).site,
            decreases steps - done,
        {
            self.step();
            trace.push(self.site);
            done += 1;
        }
        proof {
            law_run_keeps_configuration(start, steps as nat);
        }
        trace
    }

    /// The fault sink: takes a diagnostic payload, drops it, and sends the core
    /// into the idle loop of the sink. No register and no byte of memory
    /// changes.
    pub fn raise_fault(&mut self, payload: Option<&[u8]>)
        ensures
            final(self)@ == old(self)@.faulted(),
    {
        let _ = payload;
        self.site = Site::FaultWait;
    }

    /// The program counter.
    pub fn site(&self) -> (site: Site)
        ensures
            site == self@.site,
    {
        self.site
    }

    /// The phase of the bring-up that the program counter belongs to.
    pub fn phase(&self) -> (phase: Phase)
        ensures
            phase == phase_of(self@.site),
    {
        match self.site {
            Site::ReadCoreId | Site::MaskCoreId => Phase::Reset,
            Site::CompareCoreId | Site::SelectCore | Site::SetStack => Phase::Identified,
            Site::ParkWait | Site::ParkLoop => Phase::Parked,
            Site::LoadBssStart | Site::LoadBssEnd | Site::CompareBounds | Site::ExitIfDone
            | Site::StoreZero | Site::LoopBack => Phase::StackReady,
            Site::HandOff => Phase::BssCleared,
            Site::KernelEntry => Phase::HandedOff,
            Site::FaultWait | Site::FaultLoop => Phase::Faulted,
        }
    }

    /// The stack pointer.
    pub fn stack_pointer(&self) -> (sp: u64)
        ensures
            sp == self@.sp,
    {
        self.sp
    }

    /// The number of stores executed so far.
    pub fn stores(&self) -> (stores: u64)
        ensures
            stores == self@.stores,
    {
        self.stores
    }

    /// The affinity register of this core.
    pub fn mpidr(&self) -> (mpidr: u64)
        ensures
            mpidr == self@.mpidr,
    {
        self.mpidr
    }

    /// The layout that the machine was set up with.
    pub fn layout(&self) -> (layout: Layout)
        ensures
            layout == self@.layout,
    {
        self.layout
    }

    /// The byte of memory at address `addr`, or `None` where the memory does
    /// not reach.
    pub fn read_byte(&self, addr: u64) -> (byte: Option<u8>)
        ensures
            byte == (if 0 <= addr - self@.layout.ram_base < self@.ram.len() {
                Some(self@.ram[addr - self@.layout.ram_base])
            } else {
                None
            }),
    {
        if addr < self.layout.ram_base {
            return None;
        }
        let off: u64 = addr - self.layout.ram_base;
        if off < self.ram.len() as u64 {
            Some(self.ram[off as usize])
        } else {
            None
        }
    }
}

} // verus!
