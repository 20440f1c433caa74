//! What an AArch64 exception reports: its source and type, the exception
//! class and fault status in the syndrome register, and the register frame
//! saved on entry.
use vstd::prelude::*;
use crate::bitfield::{field64, get_field64};

verus! {

/// Where an exception was taken from.
#[derive(Copy, Clone, Debug, PartialEq, Eq, Structural)]
pub enum ExceptionSource {
    CurrentELUserSP,
    CurrentELCurrentSP,
    LowerEL64,
    LowerEL32,
}

impl ExceptionSource {
    /// Whether the exception came from kernel code: taken at the current
    /// exception level, with either stack pointer. Exceptions from the lower
    /// level come from user code.
    pub fn is_kernel(&self) -> (r: bool)
        ensures
            r == (*self is CurrentELUserSP || *self is CurrentELCurrentSP),
    {
        match self {
            ExceptionSource::CurrentELUserSP | ExceptionSource::CurrentELCurrentSP => true,
            ExceptionSource::LowerEL64 | ExceptionSource::LowerEL32 => false,
        }
    }

    /// The source the vector table passes as a number (0 to 3).
    pub fn from_u64(value: u64) -> (r: Option<ExceptionSource>)
        ensures
            r is Some <==> value < 4,
            r matches Some(s) ==> s.as_u64_spec() == value,
    {
        match value {
            0 => Some(ExceptionSource::CurrentELUserSP),
            1 => Some(ExceptionSource::CurrentELCurrentSP),
            2 => Some(ExceptionSource::LowerEL64),
            3 => Some(ExceptionSource::LowerEL32),
            _ => None,
        }
    }

    pub open spec fn as_u64_spec(self) -> u64 {
        match self {
            ExceptionSource::CurrentELUserSP => 0,
            ExceptionSource::CurrentELCurrentSP => 1,
            ExceptionSource::LowerEL64 => 2,
            ExceptionSource::LowerEL32 => 3,
        }
    }
}

/// The kind of exception vector taken.
#[derive(Copy, Clone, Debug, PartialEq, Eq, Structural)]
pub enum ExceptionType {
    Synchronous,
    Interrupt,
    FastInterrupt,
    SystemError,
}

impl ExceptionType {
    pub open spec fn as_u64_spec(self) -> u64 {
        match self {
            ExceptionType::Synchronous => 0,
            ExceptionType::Interrupt => 1,
            ExceptionType::FastInterrupt => 2,
            ExceptionType::SystemError => 4,
        }
    }

    /// The type the vector table passes as a number (0, 1, 2 or 4).
    pub fn from_u64(value: u64) -> (r: Option<ExceptionType>)
        ensures
            r is Some <==> (value == 0 || value == 1 || value == 2 || value == 4),
            r matches Some(t) ==> t.as_u64_spec() == value,
    {
        match value {
            0 => Some(ExceptionType::Synchronous),
            1 => Some(ExceptionType::Interrupt),
            2 => Some(ExceptionType::FastInterrupt),
            4 => Some(ExceptionType::SystemError),
            _ => None,
        }
    }
}

/// The exception classes of the syndrome register that the kernel knows.
#[derive(Copy, Clone, Debug, PartialEq, Eq, Structural)]
pub enum ExceptionClass {
    Unknown,
    TrappedWF,
    TrappedFPInstruction,
    TrappedPointerAuthenticatedInstruction,
    TrappedInstructionExecution,
    BranchTargetException,
    IllegalExecutionState,
    SystemCall,
    TrappedSVE,
    InstructionAbortFromLowerLevel,
    InstructionAbort,
    PCAlignmentFault,
    DataAbortFromLowerLevel,
    DataAbort,
    SPAlignmentFault,
    MemoryOperationException,
}

/// The class a syndrome class code names, if the kernel knows it.
pub open spec fn exception_class_of(value: u64) -> Option<ExceptionClass> {
    if value == 0b0 {
        Some(ExceptionClass::Unknown)
    } else if value == 0b1 {
        Some(ExceptionClass::TrappedWF)
    } else if value == 0b111 {
        Some(ExceptionClass::TrappedFPInstruction)
    } else if value == 0b1001 {
        Some(ExceptionClass::TrappedPointerAuthenticatedInstruction)
    } else if value == 0b1010 {
        Some(ExceptionClass::TrappedInstructionExecution)
    } else if value == 0b1101 {
        Some(ExceptionClass::BranchTargetException)
    } else if value == 0b1110 {
        Some(ExceptionClass::IllegalExecutionState)
    } else if value == 0b10101 {
        Some(ExceptionClass::SystemCall)
    } else if value == 0b11001 {
        Some(ExceptionClass::TrappedSVE)
    } else if value == 0b10_0000 {
        Some(ExceptionClass::InstructionAbortFromLowerLevel)
    } else if value == 0b10_0001 {
        Some(ExceptionClass::InstructionAbort)
    } else if value == 0b10_0010 {
        Some(ExceptionClass::PCAlignmentFault)
    } else if value == 0b10_0100 {
        Some(ExceptionClass::DataAbortFromLowerLevel)
    } else if value == 0b10_0101 {
        Some(ExceptionClass::DataAbort)
    } else if value == 0b10_0110 {
        Some(ExceptionClass::SPAlignmentFault)
    } else if value == 0b10_0111 {
        Some(ExceptionClass::MemoryOperationException)
    } else {
        None
    }
}

impl ExceptionClass {
    /// The class with the given class code.
    pub fn try_from(value: u64) -> (r: Result<ExceptionClass, &'static str>)
        ensures
            r is Ok <==> exception_class_of(value) is Some,
            r matches Ok(c) ==> exception_class_of(value) == Some(c),
            r is Err ==> r == Err::<ExceptionClass, &'static str>("Unknown Exception Class"),
    {
        match value {
            0b0 => Ok(ExceptionClass::Unknown),
            0b1 => Ok(ExceptionClass::TrappedWF),
            0b111 => Ok(ExceptionClass::TrappedFPInstruction),
            0b1001 => Ok(ExceptionClass::TrappedPointerAuthenticatedInstruction),
            0b1010 => Ok(ExceptionClass::TrappedInstructionExecution),
            0b1101 => Ok(ExceptionClass::BranchTargetException),
            0b1110 => Ok(ExceptionClass::IllegalExecutionState),
            0b10101 => Ok(ExceptionClass::SystemCall),
            0b11001 => Ok(ExceptionClass::TrappedSVE),
            0b10_0000 => Ok(ExceptionClass::InstructionAbortFromLowerLevel),
            0b10_0001 => Ok(ExceptionClass::InstructionAbort),
            0b10_0010 => Ok(ExceptionClass::PCAlignmentFault),
            0b10_0100 => Ok(ExceptionClass::DataAbortFromLowerLevel),
            0b10_0101 => Ok(ExceptionClass::DataAbort),
            0b10_0110 => Ok(ExceptionClass::SPAlignmentFault),
            0b10_0111 => Ok(ExceptionClass::MemoryOperationException),
            _ => Err("Unknown Exception Class"),
        }
    }
}

/// Data fault status codes of a data abort.
#[derive(Copy, Clone, Debug, PartialEq, Eq, Structural)]
pub enum DataFaultStatus {
    AddressSizeFaultLevel0,
    AddressSizeFaultLevel1,
    AddressSizeFaultLevel2,
    AddressSizeFaultLevel3,
    TranslationFaultLevel0,
    TranslationFaultLevel1,
    TranslationFaultLevel2,
    TranslationFaultLevel3,
    AccessFlagFaultLevel1,
    AccessFlagFaultLevel2,
    AccessFlagFaultLevel3,
    PermissionFaultLevel1,
    PermissionFaultLevel2,
    PermissionFaultLevel3,
}

/// The fault status a status code names, if the kernel knows it.
pub open spec fn data_fault_status_of(value: usize) -> Option<DataFaultStatus> {
    if value == 0b00_0000 {
        Some(DataFaultStatus::AddressSizeFaultLevel0)
    } else if value == 0b00_0001 {
        Some(DataFaultStatus::AddressSizeFaultLevel1)
    } else if value == 0b00_0010 {
        Some(DataFaultStatus::AddressSizeFaultLevel2)
    } else if value == 0b00_0011 {
        Some(DataFaultStatus::AddressSizeFaultLevel3)
    } else if value == 0b00_0100 {
        Some(DataFaultStatus::TranslationFaultLevel0)
    } else if value == 0b00_0101 {
        Some(DataFaultStatus::TranslationFaultLevel1)
    } else if value == 0b00_0110 {
        Some(DataFaultStatus::TranslationFaultLevel2)
    } else if value == 0b00_0111 {
        Some(DataFaultStatus::TranslationFaultLevel3)
    } else if value == 0b00_1001 {
        Some(DataFaultStatus::AccessFlagFaultLevel1)
    } else if value == 0b00_1010 {
        Some(DataFaultStatus::AccessFlagFaultLevel2)
    } else if value == 0b00_1011 {
        Some(DataFaultStatus::AccessFlagFaultLevel3)
    } else if value == 0b00_1101 {
        Some(DataFaultStatus::PermissionFaultLevel1)
    } else if value == 0b00_1110 {
        Some(DataFaultStatus::PermissionFaultLevel2)
    } else if value == 0b00_1111 {
        Some(DataFaultStatus::PermissionFaultLevel3)
    } else {
        None
    }
}

impl DataFaultStatus {
    /// Address size faults at any level.
    pub fn is_address_size_fault(&self) -> (r: bool)
        ensures
            r == (*self == DataFaultStatus::AddressSizeFaultLevel0 || *self
                == DataFaultStatus::AddressSizeFaultLevel1 || *self
                == DataFaultStatus::AddressSizeFaultLevel2 || *self
                == DataFaultStatus::AddressSizeFaultLevel3),
    {
        match self {
            DataFaultStatus::AddressSizeFaultLevel0
            | DataFaultStatus::AddressSizeFaultLevel1
            | DataFaultStatus::AddressSizeFaultLevel2
            | DataFaultStatus::AddressSizeFaultLevel3 => true,
            _ => false,
        }
    }

    /// Translation faults at any level.
    pub fn is_translation_fault(&self) -> (r: bool)
        ensures
            r == (*self == DataFaultStatus::TranslationFaultLevel0 || *self
                == DataFaultStatus::TranslationFaultLevel1 || *self
                == DataFaultStatus::TranslationFaultLevel2 || *self
                == DataFaultStatus::TranslationFaultLevel3),
    {
        match self {
            DataFaultStatus::TranslationFaultLevel0
            | DataFaultStatus::TranslationFaultLevel1
            | DataFaultStatus::TranslationFaultLevel2
            | DataFaultStatus::TranslationFaultLevel3 => true,
            _ => false,
        }
    }

    /// Access flag faults at any level.
    pub fn is_access_flag_fault(&self) -> (r: bool)
        ensures
            r == (*self == DataFaultStatus::AccessFlagFaultLevel1 || *self
                == DataFaultStatus::AccessFlagFaultLevel2 || *self
                == DataFaultStatus::AccessFlagFaultLevel3),
    {
        match self {
            DataFaultStatus::AccessFlagFaultLevel1
            | DataFaultStatus::AccessFlagFaultLevel2
            | DataFaultStatus::AccessFlagFaultLevel3 => true,
            _ => false,
        }
    }

    /// Permission faults at any level.
    pub fn is_permission_fault(&self) -> (r: bool)
        ensures
            r == (*self == DataFaultStatus::PermissionFaultLevel1 || *self
                == DataFaultStatus::PermissionFaultLevel2 || *self
                == DataFaultStatus::PermissionFaultLevel3),
    {
        match self {
            DataFaultStatus::PermissionFaultLevel1
            | DataFaultStatus::PermissionFaultLevel2
            | DataFaultStatus::PermissionFaultLevel3 => true,
            _ => false,
        }
    }

    /// The fault status with the given status code.
    pub fn try_from(value: usize) -> (r: Result<DataFaultStatus, &'static str>)
        ensures
            r is Ok <==> data_fault_status_of(value) is Some,
            r matches Ok(s) ==> data_fault_status_of(value) == Some(s),
            r is Err ==> r == Err::<DataFaultStatus, &'static str>("Unknown Data Fault Type"),
    {
        match value {
            0b00_0000 => Ok(DataFaultStatus::AddressSizeFaultLevel0),
            0b00_0001 => Ok(DataFaultStatus::AddressSizeFaultLevel1),
            0b00_0010 => Ok(DataFaultStatus::AddressSizeFaultLevel2),
            0b00_0011 => Ok(DataFaultStatus::AddressSizeFaultLevel3),
            0b00_0100 => Ok(DataFaultStatus::TranslationFaultLevel0),
            0b00_0101 => Ok(DataFaultStatus::TranslationFaultLevel1),
            0b00_0110 => Ok(DataFaultStatus::TranslationFaultLevel2),
            0b00_0111 => Ok(DataFaultStatus::TranslationFaultLevel3),
            0b00_1001 => Ok(DataFaultStatus::AccessFlagFaultLevel1),
            0b00_1010 => Ok(DataFaultStatus::AccessFlagFaultLevel2),
            0b00_1011 => Ok(DataFaultStatus::AccessFlagFaultLevel3),
            0b00_1101 => Ok(DataFaultStatus::PermissionFaultLevel1),
            0b00_1110 => Ok(DataFaultStatus::PermissionFaultLevel2),
            0b00_1111 => Ok(DataFaultStatus::PermissionFaultLevel3),
            _ => Err("Unknown Data Fault Type"),
        }
    }
}

/// The exception class code: bits 26..31 of the syndrome.
pub open spec fn syndrome_class(esr: u64) -> u64 {
    field64(esr, 26, 31)
}

/// The immediate of a system call instruction: bits 0..15 of the syndrome.
pub open spec fn syndrome_immediate(esr: u64) -> u64 {
    field64(esr, 0, 15)
}

/// The data fault status code: bits 0..5 of the syndrome.
pub open spec fn syndrome_fault_status(esr: u64) -> u64 {
    field64(esr, 0, 5)
}

/// An exception as the kernel handles it.
#[derive(Copy, Clone, Debug)]
pub struct Exception {
    pub exception_syndrome_register: u64,
    pub fault_address: usize,
    pub source: ExceptionSource,
    pub exception_type: ExceptionType,
}

impl Exception {
    /// The exception with the given syndrome, fault address, source and type.
    pub fn new(
        exception_syndrome_register: u64,
        fault_address: usize,
        source: ExceptionSource,
        exception_type: ExceptionType,
    ) -> (r: Exception)
        ensures
            r.exception_syndrome_register == exception_syndrome_register,
            r.fault_address == fault_address,
            r.source == source,
            r.exception_type == exception_type,
    {
        Exception { exception_syndrome_register, fault_address, source, exception_type }
    }

    pub fn get_type(&self) -> (r: ExceptionType)
        ensures
            r == self.exception_type,
    {
        self.exception_type
    }

    /// The exception class; the syndrome must hold a class the kernel knows.
    pub fn get_exception_class(&self) -> (r: ExceptionClass)
        requires
            exception_class_of(syndrome_class(self.exception_syndrome_register)) is Some,
        ensures
            exception_class_of(syndrome_class(self.exception_syndrome_register)) == Some(r),
    {
        match ExceptionClass::try_from(get_field64(self.exception_syndrome_register, 26, 31)) {
            Ok(c) => c,
            Err(_) => {
                proof {
                    assert(false);
                }
                ExceptionClass::Unknown
            },
        }
    }

    /// The immediate of the system call instruction; meaningful for system
    /// call exceptions.
    pub fn get_syscall_number(&self) -> (r: usize)
        ensures
            r == syndrome_immediate(self.exception_syndrome_register),
    {
        let esr = self.exception_syndrome_register;
        proof {
            assert(field64(esr, 0, 15) < 0x1_0000) by (bit_vector);
        }
        get_field64(self.exception_syndrome_register, 0, 15) as usize
    }

    /// Whether the exception was taken from kernel code.
    pub fn is_kernel(&self) -> (r: bool)
        ensures
            r == (self.source is CurrentELUserSP || self.source is CurrentELCurrentSP),
    {
        self.source.is_kernel()
    }

    pub fn get_address(&self) -> (r: usize)
        ensures
            r == self.fault_address,
    {
        self.fault_address
    }

    /// The data fault status; the syndrome must hold a status the kernel knows.
    pub fn get_data_fault_class(&self) -> (r: DataFaultStatus)
        requires
            data_fault_status_of(syndrome_fault_status(self.exception_syndrome_register) as usize) is Some,
        ensures
            data_fault_status_of(syndrome_fault_status(self.exception_syndrome_register) as usize) == Some(r),
    {
        match DataFaultStatus::try_from(get_field64(self.exception_syndrome_register, 0, 5) as usize) {
            Ok(s) => s,
            Err(_) => {
                proof {
                    assert(false);
                }
                DataFaultStatus::AddressSizeFaultLevel0
            },
        }
    }

    /// The raw syndrome register.
    pub fn get_esr(&self) -> (r: usize)
        ensures
            r == self.exception_syndrome_register as usize,
    {
        self.exception_syndrome_register as usize
    }
}

/// Arguments of a system call: the first three general purpose registers.
pub type SyscallArgs = [usize; 3];

/// The registers saved when an exception is taken.
#[derive(Copy, Clone, Debug)]
pub struct InterruptFrame {
    pub gp_registers: [u64; 32],
    pub elr: u64,
    pub spsr: u64,
    pub fp_regs: [u128; 32],
    pub fpsr: u64,
}

/// Saved program status that returns to EL1 on its own stack (EL1h).
pub const SPSR_EL1H: u64 = 0b101;

impl InterruptFrame {
    /// A frame that starts a kernel thread at `entry_point` with every
    /// register zero.
    pub fn with_kernel_entry(entry_point: u64) -> (r: InterruptFrame)
        ensures
            forall|i: int| 0 <= i < 32 ==> r.gp_registers@[i] == 0 && r.fp_regs@[i] == 0,
            r.elr == entry_point,
            r.spsr == SPSR_EL1H,
            r.fpsr == 0,
    {
        InterruptFrame {
            gp_registers: [0u64; 32],
            elr: entry_point,
            spsr: SPSR_EL1H,
            fp_regs: [0u128; 32],
            fpsr: 0,
        }
    }

    /// Puts `arg` in the first argument register.
    pub fn set_arg(&mut self, arg: u64)
        ensures
            final(self).gp_registers@ == old(self).gp_registers@.update(0, arg),
            final(self).elr == old(self).elr,
            final(self).spsr == old(self).spsr,
            final(self).fp_regs == old(self).fp_regs,
            final(self).fpsr == old(self).fpsr,
    {
        self.gp_registers[0] = arg;
    }

    /// The three system call arguments.
    pub fn get_syscall_arguments(&self) -> (r: SyscallArgs)
        ensures
            r@ == seq![
                self.gp_registers@[0] as usize,
                self.gp_registers@[1] as usize,
                self.gp_registers@[2] as usize,
            ],
    {
        let r = [
            self.gp_registers[0] as usize,
            self.gp_registers[1] as usize,
            self.gp_registers[2] as usize,
        ];
        assert(r@ =~= seq![
            self.gp_registers@[0] as usize,
            self.gp_registers@[1] as usize,
            self.gp_registers@[2] as usize,
        ]);
        r
    }

    pub fn get_exception_link_register(&self) -> (r: u64)
        ensures
            r == self.elr,
    {
        self.elr
    }
}

/// Each exception class code decodes to the class the Arm architecture
/// gives it (an SVC from AArch64 is 0b010101, a data abort from a lower
/// level 0b100100 and one at the same level 0b100101, and so on), every
/// other code to none, and no two codes to the same class.
pub proof fn lemma_exception_class_codes()
    ensures
        exception_class_of(0b00_0000) == Some(ExceptionClass::Unknown),
        exception_class_of(0b00_0001) == Some(ExceptionClass::TrappedWF),
        exception_class_of(0b00_0111) == Some(ExceptionClass::TrappedFPInstruction),
        exception_class_of(0b00_1001) == Some(ExceptionClass::TrappedPointerAuthenticatedInstruction),
        exception_class_of(0b00_1010) == Some(ExceptionClass::TrappedInstructionExecution),
        exception_class_of(0b00_1101) == Some(ExceptionClass::BranchTargetException),
        exception_class_of(0b00_1110) == Some(ExceptionClass::IllegalExecutionState),
        exception_class_of(0b01_0101) == Some(ExceptionClass::SystemCall),
        exception_class_of(0b01_1001) == Some(ExceptionClass::TrappedSVE),
        exception_class_of(0b10_0000) == Some(ExceptionClass::InstructionAbortFromLowerLevel),
        exception_class_of(0b10_0001) == Some(ExceptionClass::InstructionAbort),
        exception_class_of(0b10_0010) == Some(ExceptionClass::PCAlignmentFault),
        exception_class_of(0b10_0100) == Some(ExceptionClass::DataAbortFromLowerLevel),
        exception_class_of(0b10_0101) == Some(ExceptionClass::DataAbort),
        exception_class_of(0b10_0110) == Some(ExceptionClass::SPAlignmentFault),
        exception_class_of(0b10_0111) == Some(ExceptionClass::MemoryOperationException),
        forall|v: u64|
            #![trigger exception_class_of(v)]
            exception_class_of(v) is Some <==> (v <= 0b1110 && v != 0b10 && v != 0b11 && v != 0b100
                && v != 0b101 && v != 0b110 && v != 0b1000 && v != 0b1011 && v != 0b1100) || v == 0b01_0101
                || v == 0b01_1001 || (0b10_0000 <= v <= 0b10_0111 && v != 0b10_0011),
        forall|a: u64, b: u64|
            #![trigger exception_class_of(a), exception_class_of(b)]
            exception_class_of(a) is Some && exception_class_of(a) == exception_class_of(b) ==> a == b,
{
}

/// Each data fault status code decodes to the fault the Arm architecture
/// gives it: address size faults at levels 0..3 are 0b0000..0b0011,
/// translation faults 0b0100..0b0111, access flag faults at levels 1..3
/// 0b1001..0b1011 and permission faults 0b1101..0b1111; other codes decode to
/// none, and no two codes to the same fault.
pub proof fn lemma_data_fault_status_codes()
    ensures
        data_fault_status_of(0b00_0000) == Some(DataFaultStatus::AddressSizeFaultLevel0),
        data_fault_status_of(0b00_0001) == Some(DataFaultStatus::AddressSizeFaultLevel1),
        data_fault_status_of(0b00_0010) == Some(DataFaultStatus::AddressSizeFaultLevel2),
        data_fault_status_of(0b00_0011) == Some(DataFaultStatus::AddressSizeFaultLevel3),
        data_fault_status_of(0b00_0100) == Some(DataFaultStatus::TranslationFaultLevel0),
        data_fault_status_of(0b00_0101) == Some(DataFaultStatus::TranslationFaultLevel1),
        data_fault_status_of(0b00_0110) == Some(DataFaultStatus::TranslationFaultLevel2),
        data_fault_status_of(0b00_0111) == Some(DataFaultStatus::TranslationFaultLevel3),
        data_fault_status_of(0b00_1001) == Some(DataFaultStatus::AccessFlagFaultLevel1),
        data_fault_status_of(0b00_1010) == Some(DataFaultStatus::AccessFlagFaultLevel2),
        data_fault_status_of(0b00_1011) == Some(DataFaultStatus::AccessFlagFaultLevel3),
        data_fault_status_of(0b00_1101) == Some(DataFaultStatus::PermissionFaultLevel1),
        data_fault_status_of(0b00_1110) == Some(DataFaultStatus::PermissionFaultLevel2),
        data_fault_status_of(0b00_1111) == Some(DataFaultStatus::PermissionFaultLevel3),
        forall|v: usize|
            #![trigger data_fault_status_of(v)]
            data_fault_status_of(v) is Some <==> (v <= 0b1111 && v != 0b1000 && v != 0b1100),
        forall|a: usize, b: usize|
            #![trigger data_fault_status_of(a), data_fault_status_of(b)]
            data_fault_status_of(a) is Some && data_fault_status_of(a) == data_fault_status_of(b) ==> a == b,
{
}

/// The syndrome's fields: the class is bits 26..31, the system call
/// immediate bits 0..15 and the data fault status bits 0..5.
pub proof fn lemma_syndrome_fields(esr: u64)
    ensures
        syndrome_class(esr) == (esr >> 26u64) & 0x3Fu64,
        syndrome_immediate(esr) == esr & 0xFFFFu64,
        syndrome_fault_status(esr) == esr & 0x3Fu64,
{
    assert(field64(esr, 26, 31) == (esr >> 26u64) & 0x3Fu64) by (bit_vector);
    assert(field64(esr, 0, 15) == esr & 0xFFFFu64) by (bit_vector);
    assert(field64(esr, 0, 5) == esr & 0x3Fu64) by (bit_vector);
}

/// The numbers the vector table passes: sources 0..3 (current level with
/// SP_EL0, current level with SP_ELx, lower level AArch64, lower level
/// AArch32) and types 0, 1, 2, 4 (synchronous, IRQ, FIQ, SError), each
/// number naming one source or type.
pub proof fn lemma_vector_numbers()
    ensures
        ExceptionSource::CurrentELUserSP.as_u64_spec() == 0,
        ExceptionSource::CurrentELCurrentSP.as_u64_spec() == 1,
        ExceptionSource::LowerEL64.as_u64_spec() == 2,
        ExceptionSource::LowerEL32.as_u64_spec() == 3,
        ExceptionType::Synchronous.as_u64_spec() == 0,
        ExceptionType::Interrupt.as_u64_spec() == 1,
        ExceptionType::FastInterrupt.as_u64_spec() == 2,
        ExceptionType::SystemError.as_u64_spec() == 4,
        forall|a: ExceptionSource, b: ExceptionSource| #[trigger] a.as_u64_spec() == #[trigger] b.as_u64_spec() ==> a == b,
        forall|a: ExceptionType, b: ExceptionType| #[trigger] a.as_u64_spec() == #[trigger] b.as_u64_spec() ==> a == b,
{
}

} // verus!
