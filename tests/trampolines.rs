use cortex_ar::context::{Context, FpuSave};
use cortex_ar::cpsr::Cpsr;
use cortex_ar::exception::{CodeMemory, ExceptionClass};
use cortex_ar::trampoline::{enter, exit, HandlerCall};

fn context(sp: usize) -> Context {
    Context {
        r0: 10,
        r1: 11,
        r2: 12,
        r3: 13,
        r12: 14,
        sp,
        d: (21..45).collect(),
        fpscr: 31,
        fpexc: 32,
    }
}

#[test]
fn data_abort_trampoline_round_trip() {
    let code = CodeMemory { base: 0, bytes: vec![] };
    let spsr = Cpsr::new_with_raw_value(0x1f);
    let mut ctx = context(70);
    let mut stack = vec![0u32; 80];
    let call = enter(ExceptionClass::DataAbort, 0x1008, spsr, &code, &mut ctx, &mut stack, FpuSave::Low);
    assert_eq!(call, HandlerCall::Address(0x1000));
    ctx.r0 = 0;
    ctx.r3 = 0;
    for k in 0..8 {
        ctx.d[k] = 0;
    }
    let resume = exit(ExceptionClass::DataAbort, 0x1008, spsr, Some(0x1004), &mut ctx, &stack, FpuSave::Low);
    assert_eq!(resume, Some(0x1004));
    let want = context(70);
    assert_eq!((ctx.r0, ctx.r1, ctx.r2, ctx.r3, ctx.r12, ctx.sp), (want.r0, want.r1, want.r2, want.r3, want.r12, want.sp));
    assert_eq!(ctx.d, want.d);
    assert_eq!((ctx.fpscr, ctx.fpexc), (want.fpscr, want.fpexc));
}

#[test]
fn svc_trampoline_passes_argument() {
    let code = CodeMemory { base: 0x100, bytes: vec![0x2a, 0x00, 0x00, 0xef] };
    let spsr = Cpsr::new_with_raw_value(0x10);
    let mut ctx = context(63);
    let mut stack = vec![0u32; 70];
    let call = enter(ExceptionClass::SupervisorCall, 0x104, spsr, &code, &mut ctx, &mut stack, FpuSave::Off);
    assert_eq!(call, HandlerCall::Argument(0x2a));
    let resume = exit(ExceptionClass::SupervisorCall, 0x104, spsr, None, &mut ctx, &stack, FpuSave::Off);
    assert_eq!(resume, Some(0x104));
    assert_eq!(ctx.sp, 63);
    assert_eq!(ctx.r0, 10);
}

#[test]
fn irq_and_fiq_trampolines() {
    let code = CodeMemory { base: 0, bytes: vec![] };
    let spsr = Cpsr::new_with_raw_value(0x10);
    let mut ctx = context(60);
    let mut stack = vec![0u32; 60];
    assert_eq!(enter(ExceptionClass::Irq, 0x2004, spsr, &code, &mut ctx, &mut stack, FpuSave::Off), HandlerCall::NoArgument);
    assert_eq!(exit(ExceptionClass::Irq, 0x2004, spsr, None, &mut ctx, &stack, FpuSave::Off), Some(0x2000));
    let mut ctx = context(60);
    assert_eq!(enter(ExceptionClass::Fiq, 0x2004, spsr, &code, &mut ctx, &mut stack, FpuSave::Off), HandlerCall::Spin);
}
