//! Exception causes and memory-access failures.

use vstd::prelude::*;

verus! {

/// Exceptions that can occur during execution of an instruction. The
/// numeric value reported through [`MachineException::mcause`] corresponds
/// to the RISC-V `mcause` register encoding.
#[derive(Clone, Copy, Debug, PartialEq, Eq, Structural)]
pub enum MachineException {
    MisalignedPC,
    InstructionFault,
    IllegalInstruction,
    Breakpoint,
    MisalignedLoad,
    LoadFault,
    MisalignedStore,
    StoreFault,
    EcallFromUmode,
    EcallFromSmode,
    EcallFromMmode,
    InstructionPageFault,
    LoadPageFault,
    StorePageFault,
}

/// The `mcause` value of each exception cause.
pub open spec fn mcause_of(e: MachineException) -> u32 {
    match e {
        MachineException::MisalignedPC => 0,
        MachineException::InstructionFault => 1,
        MachineException::IllegalInstruction => 2,
        MachineException::Breakpoint => 3,
        MachineException::MisalignedLoad => 4,
        MachineException::LoadFault => 5,
        MachineException::MisalignedStore => 6,
        MachineException::StoreFault => 7,
        MachineException::EcallFromUmode => 8,
        MachineException::EcallFromSmode => 9,
        MachineException::EcallFromMmode => 11,
        MachineException::InstructionPageFault => 12,
        MachineException::LoadPageFault => 13,
        MachineException::StorePageFault => 15,
    }
}

impl MachineException {
    /// The value this exception would put in the `mcause` CSR.
    pub fn mcause(&self) -> (r: u32)
        ensures
            r == mcause_of(*self),
    {
        match self {
            MachineException::MisalignedPC => 0,
            MachineException::InstructionFault => 1,
            MachineException::IllegalInstruction => 2,
            MachineException::Breakpoint => 3,
            MachineException::MisalignedLoad => 4,
            MachineException::LoadFault => 5,
            MachineException::MisalignedStore => 6,
            MachineException::StoreFault => 7,
            MachineException::EcallFromUmode => 8,
            MachineException::EcallFromSmode => 9,
            MachineException::EcallFromMmode => 11,
            MachineException::InstructionPageFault => 12,
            MachineException::LoadPageFault => 13,
            MachineException::StorePageFault => 15,
        }
    }
}

/// Reasons that a memory access can fail.
#[derive(Clone, Copy, Debug, PartialEq, Eq, Structural)]
pub enum MemoryAccessFailure {
    /// The address was misaligned, and this system doesn't support misaligned
    /// access.
    Unaligned,
    /// Physical-layer failures: bus errors, PMP violations.
    AccessFault,
    /// Virtual-layer failures.
    PageFault,
}

/// The exception cause raised when an instruction fetch fails.
pub open spec fn ifetch_cause(e: MemoryAccessFailure) -> MachineException {
    match e {
        MemoryAccessFailure::Unaligned => MachineException::MisalignedPC,
        MemoryAccessFailure::AccessFault => MachineException::InstructionFault,
        MemoryAccessFailure::PageFault => MachineException::InstructionPageFault,
    }
}

/// The exception cause raised when a load fails.
pub open spec fn load_cause(e: MemoryAccessFailure) -> MachineException {
    match e {
        MemoryAccessFailure::Unaligned => MachineException::MisalignedLoad,
        MemoryAccessFailure::AccessFault => MachineException::LoadFault,
        MemoryAccessFailure::PageFault => MachineException::LoadPageFault,
    }
}

/// The exception cause raised when a store fails.
pub open spec fn store_cause(e: MemoryAccessFailure) -> MachineException {
    match e {
        MemoryAccessFailure::Unaligned => MachineException::MisalignedStore,
        MemoryAccessFailure::AccessFault => MachineException::StoreFault,
        MemoryAccessFailure::PageFault => MachineException::StorePageFault,
    }
}

/// Convert a memory failure during instruction fetch to its exception cause.
pub fn ifetch_exception(e: MemoryAccessFailure) -> (r: MachineException)
    ensures
        r == ifetch_cause(e),
{
    match e {
        MemoryAccessFailure::Unaligned => MachineException::MisalignedPC,
        MemoryAccessFailure::AccessFault => MachineException::InstructionFault,
        MemoryAccessFailure::PageFault => MachineException::InstructionPageFault,
    }
}

/// Convert a memory failure during a load to its exception cause.
pub fn load_exception(e: MemoryAccessFailure) -> (r: MachineException)
    ensures
        r == load_cause(e),
{
    match e {
        MemoryAccessFailure::Unaligned => MachineException::MisalignedLoad,
        MemoryAccessFailure::AccessFault => MachineException::LoadFault,
        MemoryAccessFailure::PageFault => MachineException::LoadPageFault,
    }
}

/// Convert a memory failure during a store to its exception cause.
pub fn store_exception(e: MemoryAccessFailure) -> (r: MachineException)
    ensures
        r == store_cause(e),
{
    match e {
        MemoryAccessFailure::Unaligned => MachineException::MisalignedStore,
        MemoryAccessFailure::AccessFault => MachineException::StoreFault,
        MemoryAccessFailure::PageFault => MachineException::StorePageFault,
    }
}

/// Flags relating to the status of extension registers (e.g. FS/VS/XS of
/// `mstatus`).
#[derive(Clone, Copy, Debug, PartialEq, Eq, Structural)]
pub enum ExtensionStatus {
    /// The extension is disabled.
    Disabled,
    /// The registers are in some OS-defined "initial state". (Set by OS.)
    Initialized,
    /// The registers are not in the "initial state", but they haven't
    /// changed since the last context switch. (Set by OS.)
    Clean,
    /// The registers have changed since the last context switch. (Set by
    /// hardware.)
    Dirty,
}

/// The two-bit field value of each extension status.
pub open spec fn status_bits(s: ExtensionStatus) -> u32 {
    match s {
        ExtensionStatus::Disabled => 0,
        ExtensionStatus::Initialized => 1,
        ExtensionStatus::Clean => 2,
        ExtensionStatus::Dirty => 3,
    }
}

/// The extension status denoted by the low two bits of a field value.
pub open spec fn status_from_bits(bits: u32) -> ExtensionStatus {
    if bits & 3 == 0 {
        ExtensionStatus::Disabled
    } else if bits & 3 == 1 {
        ExtensionStatus::Initialized
    } else if bits & 3 == 2 {
        ExtensionStatus::Clean
    } else {
        ExtensionStatus::Dirty
    }
}

impl ExtensionStatus {
    /// Convert the enum to raw FS/VS/XS bits. (0b00 = disabled, 0b01 =
    /// initialized, 0b10 = clean, 0b11 = dirty)
    pub fn to_bits(&self) -> (r: u32)
        ensures
            r == status_bits(*self),
    {
        match self {
            ExtensionStatus::Disabled => 0,
            ExtensionStatus::Initialized => 1,
            ExtensionStatus::Clean => 2,
            ExtensionStatus::Dirty => 3,
        }
    }

    /// Convert from raw FS/VS/XS bits to an enum value. Bits other than the
    /// two low order bits will be ignored.
    pub fn from_bits(bits: u32) -> (r: ExtensionStatus)
        ensures
            r == status_from_bits(bits),
    {
        let low = bits & 3;
        if low == 0 {
            ExtensionStatus::Disabled
        } else if low == 1 {
            ExtensionStatus::Initialized
        } else if low == 2 {
            ExtensionStatus::Clean
        } else {
            ExtensionStatus::Dirty
        }
    }
}

} // verus!
