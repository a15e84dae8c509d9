//! The exception trampolines: on entry each saves the interrupted context
//! and works out what its handler is called with; on exit it restores the
//! context and works out where execution resumes.

use vstd::prelude::*;
use crate::context::{
    lemma_save_restore_symmetric, restorable, FpuSave, restore_context, save_context, spec_restore,
    spec_save, Context, ContextView, MAX_FRAME_WORDS, SAVED_D_REGS,
};
use crate::cpsr::Cpsr;
use crate::exception::{
    adjusted_return_address, resume_address, spec_resume_address, spec_svc_argument,
    svc_argument, CodeMemory, ExceptionClass,
};

verus! {

/// What a trampoline calls its handler with.
#[derive(Debug, Clone, Copy, PartialEq, Eq, Structural)]
pub enum HandlerCall {
    /// The faulting instruction's address
    Address(usize),
    /// The supervisor call's argument
    Argument(u32),
    /// No argument
    NoArgument,
    /// No handler is called: the class spins forever
    Spin,
}

/// The call that the trampoline of `class` makes.
pub open spec fn spec_handler_call(class: ExceptionClass, lr: usize, spsr: Cpsr, code: &CodeMemory) -> HandlerCall {
    match class {
        ExceptionClass::Undefined | ExceptionClass::PrefetchAbort | ExceptionClass::DataAbort =>
            HandlerCall::Address(lr.wrapping_sub(class.return_offset(spsr.spec_t()))),
        ExceptionClass::SupervisorCall => HandlerCall::Argument(spec_svc_argument(code, lr, spsr)->0),
        ExceptionClass::Irq => HandlerCall::NoArgument,
        _ => HandlerCall::Spin,
    }
}

/// Trampoline entry: saves the context, then works out the handler's
/// argument from the hardware's return address and saved status.
pub fn enter(class: ExceptionClass, lr: usize, spsr: Cpsr, code: &CodeMemory, ctx: &mut Context, stack: &mut Vec<u32>, fpu: FpuSave) -> (r: HandlerCall)
    requires
        old(ctx).wf(),
        MAX_FRAME_WORDS <= old(ctx).sp <= old(stack)@.len(),
        class == ExceptionClass::SupervisorCall ==> spec_svc_argument(code, lr, spsr) is Some,
    ensures
        final(ctx).wf(),
        (final(ctx)@, final(stack)@) == spec_save(old(ctx)@, old(stack)@, fpu),
        r == spec_handler_call(class, lr, spsr, code),
{
    save_context(ctx, stack, fpu);
    match class {
        ExceptionClass::Undefined | ExceptionClass::PrefetchAbort | ExceptionClass::DataAbort =>
            HandlerCall::Address(adjusted_return_address(class, lr, spsr)),
        ExceptionClass::SupervisorCall => match svc_argument(code, lr, spsr) {
            Some(a) => HandlerCall::Argument(a),
            None => HandlerCall::Spin,
        },
        ExceptionClass::Irq => HandlerCall::NoArgument,
        _ => HandlerCall::Spin,
    }
}

/// Trampoline exit: restores the context, then works out where execution
/// resumes. `handler` is the address that a handler which may choose one
/// returned.
pub fn exit(class: ExceptionClass, lr: usize, spsr: Cpsr, handler: Option<usize>, ctx: &mut Context, stack: &Vec<u32>, fpu: FpuSave) -> (r: Option<usize>)
    requires
        old(ctx).wf(),
        restorable(old(ctx).sp as int, stack@, fpu),
    ensures
        final(ctx).wf(),
        final(ctx)@ == spec_restore(old(ctx)@, stack@, fpu),
        r == spec_resume_address(class, lr, spsr, handler),
{
    restore_context(ctx, stack, fpu);
    resume_address(class, lr, spsr, handler)
}

/// A handler that keeps the stack pointer and the stack above it, and
/// leaves the floating-point state alone where it is not saved, finds the
/// interrupted context exactly as it was after the trampoline returns, and
/// execution resumes where the class's rule says.
pub proof fn lemma_trampoline_round_trip(
    class: ExceptionClass,
    lr: usize,
    spsr: Cpsr,
    handler: Option<usize>,
    c: ContextView,
    m: Seq<u32>,
    fpu: FpuSave,
    h: ContextView,
    hm: Seq<u32>,
)
    requires
        c.d.len() == SAVED_D_REGS,
        MAX_FRAME_WORDS <= c.sp <= m.len(),
        h.sp == spec_save(c, m, fpu).0.sp,
        hm.len() == m.len(),
        forall|i: int| h.sp <= i < c.sp ==> hm[i] == #[trigger] spec_save(c, m, fpu).1[i],
        fpu == FpuSave::Off ==> h.d == c.d && h.fpscr == c.fpscr && h.fpexc == c.fpexc,
        fpu == FpuSave::Low ==> h.d.subrange(8, 24) == c.d.subrange(8, 24),
    ensures
        restorable(h.sp, hm, fpu),
        spec_restore(h, hm, fpu) == c,
        class == ExceptionClass::SupervisorCall ==> spec_resume_address(class, lr, spsr, handler) == Some(lr),
        class == ExceptionClass::Irq ==> spec_resume_address(class, lr, spsr, handler) == Some(lr.wrapping_sub(4)),
        class == ExceptionClass::DataAbort ==> spec_resume_address(class, lr, spsr, handler) == handler,
{
    lemma_save_restore_symmetric(c, m, fpu, h, hm);
}

} // verus!
