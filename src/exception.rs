//! The exception vector table, the return-address rules of each exception
//! class, supervisor-call argument decoding, and where execution resumes
//! after a handler.

use vstd::prelude::*;
use crate::cpsr::{Cpsr, ProcessorMode};

verus! {

/// The exception classes, in vector table order.
#[derive(Debug, Clone, Copy, PartialEq, Eq, Structural)]
pub enum ExceptionClass {
    Reset,
    Undefined,
    SupervisorCall,
    PrefetchAbort,
    DataAbort,
    Reserved,
    Irq,
    Fiq,
}

/// One slot of the vector table.
#[derive(Debug, Clone, Copy, PartialEq, Eq, Structural)]
pub enum VectorEntry {
    /// Loads the program counter with the address of this class's handler
    Branch(ExceptionClass),
    /// The reserved slot
    Nop,
}

/// The vector table: eight one-instruction slots in hardware order.
pub open spec fn spec_vector_table() -> Seq<VectorEntry> {
    seq![
        VectorEntry::Branch(ExceptionClass::Reset),
        VectorEntry::Branch(ExceptionClass::Undefined),
        VectorEntry::Branch(ExceptionClass::SupervisorCall),
        VectorEntry::Branch(ExceptionClass::PrefetchAbort),
        VectorEntry::Branch(ExceptionClass::DataAbort),
        VectorEntry::Nop,
        VectorEntry::Branch(ExceptionClass::Irq),
        VectorEntry::Branch(ExceptionClass::Fiq),
    ]
}

/// Builds the vector table.
pub fn vector_table() -> (r: Vec<VectorEntry>)
    ensures
        r@ == spec_vector_table(),
{
    let r = vec![
        VectorEntry::Branch(ExceptionClass::Reset),
        VectorEntry::Branch(ExceptionClass::Undefined),
        VectorEntry::Branch(ExceptionClass::SupervisorCall),
        VectorEntry::Branch(ExceptionClass::PrefetchAbort),
        VectorEntry::Branch(ExceptionClass::DataAbort),
        VectorEntry::Nop,
        VectorEntry::Branch(ExceptionClass::Irq),
        VectorEntry::Branch(ExceptionClass::Fiq),
    ];
    assert(r@ =~= spec_vector_table());
    r
}

impl ExceptionClass {
    /// The class's slot number in the vector table.
    pub open spec fn spec_slot(self) -> nat {
        match self {
            ExceptionClass::Reset => 0,
            ExceptionClass::Undefined => 1,
            ExceptionClass::SupervisorCall => 2,
            ExceptionClass::PrefetchAbort => 3,
            ExceptionClass::DataAbort => 4,
            ExceptionClass::Reserved => 5,
            ExceptionClass::Irq => 6,
            ExceptionClass::Fiq => 7,
        }
    }

    /// The byte offset of the class's slot from the table's base.
    pub fn vector_offset(self) -> (r: u32)
        ensures
            r == 4 * self.spec_slot(),
    {
        match self {
            ExceptionClass::Reset => 0,
            ExceptionClass::Undefined => 4,
            ExceptionClass::SupervisorCall => 8,
            ExceptionClass::PrefetchAbort => 12,
            ExceptionClass::DataAbort => 16,
            ExceptionClass::Reserved => 20,
            ExceptionClass::Irq => 24,
            ExceptionClass::Fiq => 28,
        }
    }

    /// The mode that the hardware enters for this class.
    pub open spec fn spec_entry_mode(self) -> ProcessorMode {
        match self {
            ExceptionClass::Reset => ProcessorMode::Svc,
            ExceptionClass::Undefined => ProcessorMode::Und,
            ExceptionClass::SupervisorCall => ProcessorMode::Svc,
            ExceptionClass::PrefetchAbort => ProcessorMode::Abt,
            ExceptionClass::DataAbort => ProcessorMode::Abt,
            ExceptionClass::Reserved => ProcessorMode::Svc,
            ExceptionClass::Irq => ProcessorMode::Irq,
            ExceptionClass::Fiq => ProcessorMode::Fiq,
        }
    }

    pub fn entry_mode(self) -> (r: ProcessorMode)
        ensures
            r == self.spec_entry_mode(),
    {
        match self {
            ExceptionClass::Reset => ProcessorMode::Svc,
            ExceptionClass::Undefined => ProcessorMode::Und,
            ExceptionClass::SupervisorCall => ProcessorMode::Svc,
            ExceptionClass::PrefetchAbort => ProcessorMode::Abt,
            ExceptionClass::DataAbort => ProcessorMode::Abt,
            ExceptionClass::Reserved => ProcessorMode::Svc,
            ExceptionClass::Irq => ProcessorMode::Irq,
            ExceptionClass::Fiq => ProcessorMode::Fiq,
        }
    }

    /// The mode that the class's handler runs in: the interrupt trampoline
    /// moves to System mode, so that interrupt handlers share the
    /// application's stack and may nest; the others stay in the mode that
    /// the hardware entered.
    pub open spec fn spec_handler_mode(self) -> ProcessorMode {
        match self {
            ExceptionClass::Irq => ProcessorMode::Sys,
            _ => self.spec_entry_mode(),
        }
    }

    pub fn handler_mode(self) -> (r: ProcessorMode)
        ensures
            r == self.spec_handler_mode(),
    {
        match self {
            ExceptionClass::Irq => ProcessorMode::Sys,
            _ => self.entry_mode(),
        }
    }

    /// The symbol that the class's vector slot jumps to.
    pub open spec fn spec_vector_target(self) -> Option<Seq<char>> {
        match self {
            ExceptionClass::Reset => Some("_start"@),
            ExceptionClass::Undefined => Some("_asm_undefined_handler"@),
            ExceptionClass::SupervisorCall => Some("_asm_svc_handler"@),
            ExceptionClass::PrefetchAbort => Some("_asm_prefetch_abort_handler"@),
            ExceptionClass::DataAbort => Some("_asm_data_abort_handler"@),
            ExceptionClass::Reserved => None,
            ExceptionClass::Irq => Some("_asm_irq_handler"@),
            ExceptionClass::Fiq => Some("_asm_fiq_handler"@),
        }
    }

    pub fn vector_target(self) -> (r: Option<&'static str>)
        ensures
            r is Some <==> self.spec_vector_target() is Some,
            r is Some ==> r->0@ == self.spec_vector_target()->0,
    {
        match self {
            ExceptionClass::Reset => Some("_start"),
            ExceptionClass::Undefined => Some("_asm_undefined_handler"),
            ExceptionClass::SupervisorCall => Some("_asm_svc_handler"),
            ExceptionClass::PrefetchAbort => Some("_asm_prefetch_abort_handler"),
            ExceptionClass::DataAbort => Some("_asm_data_abort_handler"),
            ExceptionClass::Reserved => None,
            ExceptionClass::Irq => Some("_asm_irq_handler"),
            ExceptionClass::Fiq => Some("_asm_fiq_handler"),
        }
    }

    /// How far the hardware's return address lies past the instruction that
    /// the handler is told of: the faulting instruction for the undefined,
    /// prefetch-abort and data-abort classes, the interrupted one for IRQ,
    /// and none for a supervisor call, which resumes at the return address.
    pub open spec fn return_offset(self, thumb: bool) -> usize {
        match self {
            ExceptionClass::Undefined => if thumb { 2 } else { 4 },
            ExceptionClass::PrefetchAbort => 4,
            ExceptionClass::DataAbort => 8,
            ExceptionClass::Irq => 4,
            _ => 0,
        }
    }
}

/// The faulting (or interrupted) instruction's address, found from the
/// return address that the hardware left in the link register and the saved
/// status register of the interrupted code.
pub fn adjusted_return_address(class: ExceptionClass, lr: usize, spsr: Cpsr) -> (r: usize)
    ensures
        r == lr.wrapping_sub(class.return_offset(spsr.spec_t())),
        lr >= class.return_offset(spsr.spec_t()) ==> r == lr - class.return_offset(spsr.spec_t()),
{
    let offset: usize = match class {
        ExceptionClass::Undefined => if spsr.t() { 2 } else { 4 },
        ExceptionClass::PrefetchAbort => 4,
        ExceptionClass::DataAbort => 8,
        ExceptionClass::Irq => 4,
        _ => 0,
    };
    lr.wrapping_sub(offset)
}

/// The link register value that the hardware sets on taking an exception of
/// this class at the instruction at `pc`.
pub open spec fn hardware_link(class: ExceptionClass, pc: usize, thumb: bool) -> int {
    pc + class.return_offset(thumb)
}

/// The adjustment undoes the hardware's offset: an undefined instruction in
/// Thumb state is reported at the return address less two, in Arm state
/// less four; a prefetch abort less four; a data abort less eight; an
/// interrupt less four.
pub proof fn lemma_adjustment_finds_instruction(class: ExceptionClass, pc: usize, spsr: Cpsr)
    requires
        hardware_link(class, pc, spsr.spec_t()) <= usize::MAX,
    ensures
        ({
            let lr = hardware_link(class, pc, spsr.spec_t()) as usize;
            &&& lr.wrapping_sub(class.return_offset(spsr.spec_t())) == pc
            &&& class == ExceptionClass::Undefined && spsr.spec_t() ==> pc == lr - 2
            &&& class == ExceptionClass::Undefined && !spsr.spec_t() ==> pc == lr - 4
            &&& class == ExceptionClass::PrefetchAbort ==> pc == lr - 4
            &&& class == ExceptionClass::DataAbort ==> pc == lr - 8
            &&& class == ExceptionClass::Irq ==> pc == lr - 4
        }),
{
}

/// Program memory as bytes, starting at address `base`.
pub struct CodeMemory {
    pub base: usize,
    pub bytes: Vec<u8>,
}

impl CodeMemory {
    /// Whether the `n` bytes from `addr` lie in this memory.
    pub open spec fn readable(&self, addr: int, n: int) -> bool {
        self.base <= addr && addr + n <= self.base + self.bytes@.len()
    }

    /// The byte at `addr`.
    pub open spec fn byte_at(&self, addr: int) -> u8 {
        self.bytes@[addr - self.base]
    }

    /// The little-endian halfword at `addr`.
    pub open spec fn half_at(&self, addr: int) -> u32 {
        (self.byte_at(addr) as u32) | ((self.byte_at(addr + 1) as u32) << 8)
    }

    /// The little-endian word at `addr`.
    pub open spec fn word_at(&self, addr: int) -> u32 {
        (self.byte_at(addr) as u32) | ((self.byte_at(addr + 1) as u32) << 8)
            | ((self.byte_at(addr + 2) as u32) << 16) | ((self.byte_at(addr + 3) as u32) << 24)
    }

    /// Reads the little-endian halfword at `addr`.
    pub fn read_half(&self, addr: usize) -> (r: u32)
        requires
            self.readable(addr as int, 2),
        ensures
            r == self.half_at(addr as int),
    {
        let n: usize = self.bytes.len();
        let i = addr - self.base;
        (self.bytes[i] as u32) | ((self.bytes[i + 1] as u32) << 8)
    }

    /// Reads the little-endian word at `addr`.
    pub fn read_word(&self, addr: usize) -> (r: u32)
        requires
            self.readable(addr as int, 4),
        ensures
            r == self.word_at(addr as int),
    {
        let n: usize = self.bytes.len();
        let i = addr - self.base;
        (self.bytes[i] as u32) | ((self.bytes[i + 1] as u32) << 8) | ((self.bytes[i + 2] as u32) << 16)
            | ((self.bytes[i + 3] as u32) << 24)
    }
}

/// The argument of the supervisor call that ends just before `lr`: the
/// low byte of the 16-bit Thumb instruction, or the low 24 bits of the
/// 32-bit Arm instruction, as the interrupted code's state selects.
pub open spec fn spec_svc_argument(mem: &CodeMemory, lr: usize, spsr: Cpsr) -> Option<u32> {
    if spsr.spec_t() {
        if mem.readable(lr - 2, 2) {
            Some(mem.half_at(lr - 2) & !0xFF00u32)
        } else {
            None
        }
    } else {
        if mem.readable(lr - 4, 4) {
            Some(mem.word_at(lr - 4) & !0xFF00_0000u32)
        } else {
            None
        }
    }
}

/// Decodes the argument of the supervisor call that ends just before `lr`,
/// or `None` where that instruction does not lie in `mem`.
pub fn svc_argument(mem: &CodeMemory, lr: usize, spsr: Cpsr) -> (r: Option<u32>)
    ensures
        r == spec_svc_argument(mem, lr, spsr),
{
    let len = mem.bytes.len();
    if spsr.t() {
        if lr < 2 || lr - 2 < mem.base || lr - 2 - mem.base > len || len - (lr - 2 - mem.base) < 2 {
            return None;
        }
        let half = mem.read_half(lr - 2);
        Some(half & !0xFF00u32)
    } else {
        if lr < 4 || lr - 4 < mem.base || lr - 4 - mem.base > len || len - (lr - 4 - mem.base) < 4 {
            return None;
        }
        let word = mem.read_word(lr - 4);
        Some(word & !0xFF00_0000u32)
    }
}

/// Where execution resumes after the handler of an exception that was
/// taken with return address `lr` and saved status `spsr`. `handler` is
/// what a handler that may return an address gave back, or `None` where it
/// did not return. Undefined-instruction, prefetch-abort and data-abort
/// handlers choose the address; a supervisor call resumes after its
/// instruction and an interrupt at the interrupted instruction, whatever
/// the handler does; the other classes never return.
pub open spec fn spec_resume_address(class: ExceptionClass, lr: usize, spsr: Cpsr, handler: Option<usize>) -> Option<usize> {
    match class {
        ExceptionClass::Undefined | ExceptionClass::PrefetchAbort | ExceptionClass::DataAbort => handler,
        ExceptionClass::SupervisorCall => Some(lr),
        ExceptionClass::Irq => Some(lr.wrapping_sub(4)),
        _ => None,
    }
}

/// Computes where execution resumes after a handler.
pub fn resume_address(class: ExceptionClass, lr: usize, spsr: Cpsr, handler: Option<usize>) -> (r: Option<usize>)
    ensures
        r == spec_resume_address(class, lr, spsr, handler),
{
    match class {
        ExceptionClass::Undefined | ExceptionClass::PrefetchAbort | ExceptionClass::DataAbort => handler,
        ExceptionClass::SupervisorCall => Some(lr),
        ExceptionClass::Irq => Some(lr.wrapping_sub(4)),
        _ => None,
    }
}

/// A data-abort handler that returns the address it was given resumes the
/// faulting instruction, so the same fault is taken again at the same
/// address; one that returns that address plus four resumes at the next
/// instruction.
pub proof fn lemma_data_abort_resumption(pc: usize, spsr: Cpsr)
    requires
        pc + 12 <= usize::MAX,
    ensures
        ({
            let lr = hardware_link(ExceptionClass::DataAbort, pc, spsr.spec_t()) as usize;
            let addr = lr.wrapping_sub(ExceptionClass::DataAbort.return_offset(spsr.spec_t()));
            &&& addr == pc
            &&& spec_resume_address(ExceptionClass::DataAbort, lr, spsr, Some(addr)) == Some(pc)
            &&& ({
                let again = hardware_link(ExceptionClass::DataAbort, pc, spsr.spec_t()) as usize;
                again.wrapping_sub(ExceptionClass::DataAbort.return_offset(spsr.spec_t())) == addr
            })
            &&& spec_resume_address(ExceptionClass::DataAbort, lr, spsr, Some((addr + 4) as usize)) == Some((pc + 4) as usize)
            &&& pc + 4 != pc
        }),
{
}

} // verus!
