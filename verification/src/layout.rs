//! The memory layout agreed between the link step and the boot code.

use vstd::prelude::*;

verus! {

/// The address that the primary core loads into its stack pointer.
pub const STACK_TOP: u64 = 0x1FFF0000;

/// The bits of the affinity register that tell the cores apart.
pub const CORE_MASK: u64 = 0b11;

/// The identifier of the one core that may boot the kernel.
pub const PRIMARY_CORE: u64 = 0;

/// The number of bytes that one store of the zeroing pass clears.
pub const WORD: u64 = 8;

/// The core identifier that the trampoline extracts from the affinity register.
pub open spec fn core_id_of(mpidr: u64) -> u64 {
    mpidr & CORE_MASK
}

/// Whether the core with this affinity register is the one that boots the kernel.
pub open spec fn is_primary(mpidr: u64) -> bool {
    core_id_of(mpidr) == PRIMARY_CORE
}

/// Extracts the core identifier from the value of the affinity register.
pub fn core_id(mpidr: u64) -> (id: u64)
    ensures
        id == core_id_of(mpidr),
        id <= CORE_MASK,
{
    assert(mpidr & 0b11 <= 0b11) by (bit_vector);
    mpidr & CORE_MASK
}

/// Why a machine cannot be set up as asked.
#[derive(Clone, Copy, Debug, PartialEq, Eq)]
pub enum ConfigError {
    /// A boundary of the zero-initialised region is not a multiple of eight.
    Misaligned,
    /// The zero-initialised region ends before it starts.
    Inverted,
    /// The zero-initialised region reaches outside the memory.
    Unmapped,
    /// The stack is larger than the space below its top, or reaches outside
    /// the memory.
    StackUnmapped,
    /// The stack shares a byte with the zero-initialised region.
    StackCollision,
    /// The memory image handed over has not the length that the layout names.
    ImageSize,
}

/// What the link step fixes: where the memory lies, which part of it must read
/// as zero before the kernel runs, and how far the stack may grow down from
/// [`STACK_TOP`].
#[derive(Clone, Copy, Debug, PartialEq, Eq)]
pub struct Layout {
    /// Address of the first byte of memory.
    pub ram_base: u64,
    /// Number of bytes of memory.
    pub ram_len: u64,
    /// Address of the first byte of the zero-initialised region.
    pub bss_start: u64,
    /// Address of the first byte after the zero-initialised region.
    pub bss_end: u64,
    /// Number of bytes reserved for the stack below [`STACK_TOP`].
    pub stack_size: u64,
}

impl Layout {
    /// Both boundaries of the zero-initialised region are multiples of eight.
    pub open spec fn aligned(self) -> bool {
        self.bss_start % WORD == 0 && self.bss_end % WORD == 0
    }

    /// The zero-initialised region does not end before it starts.
    pub open spec fn ordered(self) -> bool {
        self.bss_start <= self.bss_end
    }

    /// The zero-initialised region lies inside the memory, and the memory
    /// inside the address space.
    pub open spec fn mapped(self) -> bool {
        &&& self.ram_base + self.ram_len <= u64::MAX
        &&& self.ram_base <= self.bss_start
        &&& self.bss_end <= self.ram_base + self.ram_len
    }

    /// The stack fits below its top and, unless it is empty, lies inside the
    /// memory.
    pub open spec fn stack_mapped(self) -> bool {
        &&& self.stack_size <= STACK_TOP
        &&& self.stack_size == 0 || (self.ram_base <= STACK_TOP - self.stack_size && STACK_TOP
            <= self.ram_base + self.ram_len)
    }

    /// The stack shares no byte with the zero-initialised region.
    pub open spec fn stack_clear(self) -> bool {
        !(self.bss_start < self.bss_end && self.bss_start < STACK_TOP && STACK_TOP
            - self.stack_size < self.bss_end)
    }

    /// The first rule that the layout breaks, if it breaks one.
    pub open spec fn defect(self) -> Option<ConfigError> {
        if !self.aligned() {
            Some(ConfigError::Misaligned)
        } else if !self.ordered() {
            Some(ConfigError::Inverted)
        } else if !self.mapped() {
            Some(ConfigError::Unmapped)
        } else if !self.stack_mapped() {
            Some(ConfigError::StackUnmapped)
        } else if !self.stack_clear() {
            Some(ConfigError::StackCollision)
        } else {
            None
        }
    }

    /// The layout keeps every rule that the trampoline relies on.
    pub open spec fn valid(self) -> bool {
        &&& self.aligned()
        &&& self.ordered()
        &&& self.mapped()
        &&& self.stack_mapped()
        &&& self.stack_clear()
    }

    /// The number of eight-byte words in the zero-initialised region.
    pub open spec fn bss_words(self) -> nat {
        ((self.bss_end - self.bss_start) / 8) as nat
    }

    /// Offset into memory of the first byte of the zero-initialised region.
    pub open spec fn bss_lo(self) -> int {
        self.bss_start - self.ram_base
    }

    /// Offset into memory of the first byte after the zero-initialised region.
    pub open spec fn bss_hi(self) -> int {
        self.bss_end - self.ram_base
    }

    /// Checks the layout against the rules that the trampoline relies on and
    /// cannot test itself, and names the first that is broken.
    pub fn validate(&self) -> (r: Result<(), ConfigError>)
        ensures
            r.is_ok() <==> self.valid(),
            r.is_ok() <==> self.defect().is_none(),
            r.is_err() ==> self.defect() == Some(r.unwrap_err()),
    {
        if self.bss_start % WORD != 0 || self.bss_end % WORD != 0 {
            return Err(ConfigError::Misaligned);
        }
        if self.bss_start > self.bss_end {
            return Err(ConfigError::Inverted);
        }
        if self.ram_len > u64::MAX - self.ram_base || self.ram_base > self.bss_start
            || self.bss_end > self.ram_base + self.ram_len {
            return Err(ConfigError::Unmapped);
        }
        if self.stack_size > STACK_TOP {
            return Err(ConfigError::StackUnmapped);
        }
        if self.stack_size != 0 && (self.ram_base > STACK_TOP - self.stack_size || STACK_TOP
            > self.ram_base + self.ram_len) {
            return Err(ConfigError::StackUnmapped);
        }
        if self.bss_start < self.bss_end && self.bss_start < STACK_TOP && STACK_TOP
            - self.stack_size < self.bss_end {
            return Err(ConfigError::StackCollision);
        }
        Ok(())
    }
}

} // verus!
