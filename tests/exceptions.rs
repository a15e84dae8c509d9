use cortex_ar::context::{restore_context, save_context, Context, FpuSave};
use cortex_ar::cpsr::{Cpsr, ProcessorMode};
use cortex_ar::exception::{
    adjusted_return_address, resume_address, svc_argument, vector_table, CodeMemory,
    ExceptionClass, VectorEntry,
};

fn thumb() -> Cpsr {
    Cpsr::new_with_raw_value(0x10).with_t(true)
}

fn arm() -> Cpsr {
    Cpsr::new_with_raw_value(0x10)
}

#[test]
fn vector_table_order() {
    let t = vector_table();
    assert_eq!(t.len(), 8);
    assert_eq!(t[0], VectorEntry::Branch(ExceptionClass::Reset));
    assert_eq!(t[1], VectorEntry::Branch(ExceptionClass::Undefined));
    assert_eq!(t[2], VectorEntry::Branch(ExceptionClass::SupervisorCall));
    assert_eq!(t[3], VectorEntry::Branch(ExceptionClass::PrefetchAbort));
    assert_eq!(t[4], VectorEntry::Branch(ExceptionClass::DataAbort));
    assert_eq!(t[5], VectorEntry::Nop);
    assert_eq!(t[6], VectorEntry::Branch(ExceptionClass::Irq));
    assert_eq!(t[7], VectorEntry::Branch(ExceptionClass::Fiq));
    assert_eq!(ExceptionClass::Irq.vector_offset(), 0x18);
    assert_eq!(ExceptionClass::DataAbort.vector_target(), Some("_asm_data_abort_handler"));
    assert_eq!(ExceptionClass::Reserved.vector_target(), None);
    assert_eq!(ExceptionClass::DataAbort.entry_mode(), ProcessorMode::Abt);
    assert_eq!(ExceptionClass::DataAbort.handler_mode(), ProcessorMode::Abt);
    assert_eq!(ExceptionClass::Irq.entry_mode(), ProcessorMode::Irq);
    assert_eq!(ExceptionClass::Irq.handler_mode(), ProcessorMode::Sys);
}

#[test]
fn undefined_return_address_depends_on_thumb() {
    assert_eq!(adjusted_return_address(ExceptionClass::Undefined, 0x1002, thumb()), 0x1000);
    assert_eq!(adjusted_return_address(ExceptionClass::Undefined, 0x1004, arm()), 0x1000);
}

#[test]
fn abort_and_irq_return_addresses() {
    assert_eq!(adjusted_return_address(ExceptionClass::DataAbort, 0x2008, arm()), 0x2000);
    assert_eq!(adjusted_return_address(ExceptionClass::DataAbort, 0x2008, thumb()), 0x2000);
    assert_eq!(adjusted_return_address(ExceptionClass::PrefetchAbort, 0x3004, arm()), 0x3000);
    assert_eq!(adjusted_return_address(ExceptionClass::Irq, 0x4004, thumb()), 0x4000);
    assert_eq!(adjusted_return_address(ExceptionClass::SupervisorCall, 0x5004, arm()), 0x5004);
}

#[test]
fn svc_argument_arm_encoding() {
    // `svc #0xABCDEF` in Arm state: 0xEFABCDEF, little endian
    let mem = CodeMemory { base: 0x8000, bytes: vec![0xEF, 0xCD, 0xAB, 0xEF] };
    assert_eq!(svc_argument(&mem, 0x8004, arm()), Some(0xABCDEF));
}

#[test]
fn svc_argument_thumb_encoding() {
    // `svc #0xAB` in Thumb state: 0xDFAB, little endian
    let mem = CodeMemory { base: 0x8000, bytes: vec![0x00, 0x00, 0xAB, 0xDF] };
    assert_eq!(svc_argument(&mem, 0x8004, thumb()), Some(0xAB));
}

#[test]
fn svc_argument_outside_memory() {
    let mem = CodeMemory { base: 0x8000, bytes: vec![0xEF, 0xCD, 0xAB, 0xEF] };
    assert_eq!(svc_argument(&mem, 0x8000, arm()), None);
    assert_eq!(svc_argument(&mem, 0x8009, arm()), None);
    assert_eq!(svc_argument(&mem, 1, thumb()), None);
}

#[test]
fn data_abort_retry_and_skip() {
    let pc: usize = 0x2000;
    let lr = pc + 8;
    let addr = adjusted_return_address(ExceptionClass::DataAbort, lr, arm());
    assert_eq!(addr, pc);
    // returning the address unchanged retries the same instruction
    let resume = resume_address(ExceptionClass::DataAbort, lr, arm(), Some(addr)).unwrap();
    assert_eq!(resume, pc);
    let again = adjusted_return_address(ExceptionClass::DataAbort, resume + 8, arm());
    assert_eq!(again, addr);
    // returning the address plus four skips it
    let resume = resume_address(ExceptionClass::DataAbort, lr, arm(), Some(addr + 4)).unwrap();
    assert_eq!(resume, pc + 4);
    assert_ne!(resume, pc);
}

#[test]
fn svc_and_irq_resume_regardless_of_handler() {
    assert_eq!(resume_address(ExceptionClass::SupervisorCall, 0x5004, arm(), Some(0x9999)), Some(0x5004));
    assert_eq!(resume_address(ExceptionClass::Irq, 0x4004, arm(), None), Some(0x4000));
    assert_eq!(resume_address(ExceptionClass::Undefined, 0x4004, arm(), None), None);
    assert_eq!(resume_address(ExceptionClass::Fiq, 0x4004, arm(), Some(1)), None);
}

fn sample_context(sp: usize) -> Context {
    Context {
        r0: 0x1111_1111,
        r1: 0x2222_2222,
        r2: 0x3333_3333,
        r3: 0x4444_4444,
        r12: 0xcccc_cccc,
        sp,
        d: (0..24u64).map(|i| i * 0x0101_0101_0101_0101 + 0xdead_beef).collect(),
        fpscr: 0x0300_0000,
        fpexc: 0x4000_0000,
    }
}

fn same(a: &Context, b: &Context) -> bool {
    a.r0 == b.r0 && a.r1 == b.r1 && a.r2 == b.r2 && a.r3 == b.r3 && a.r12 == b.r12
        && a.sp == b.sp && a.d == b.d && a.fpscr == b.fpscr && a.fpexc == b.fpexc
}

#[test]
fn save_restore_symmetry() {
    for fpu in [FpuSave::Off, FpuSave::Low, FpuSave::LowAndHigh] {
        for sp in [80usize, 81] {
            let before = sample_context(sp);
            let mut ctx = sample_context(sp);
            let mut mem = vec![0xaaaa_aaaau32; 96];
            save_context(&mut ctx, &mut mem, fpu);
            assert_eq!(ctx.sp % 2, 0);
            // a handler clobbers the caller-saved registers
            ctx.r0 = 0;
            ctx.r1 = 0;
            ctx.r2 = 0;
            ctx.r3 = 0;
            ctx.r12 = 0;
            match fpu {
                FpuSave::Off => {}
                FpuSave::Low => {
                    for k in 0..8 {
                        ctx.d[k] = 0;
                    }
                    ctx.fpscr = 0;
                    ctx.fpexc = 0;
                }
                FpuSave::LowAndHigh => {
                    ctx.d = vec![0; 24];
                    ctx.fpscr = 0;
                    ctx.fpexc = 0;
                }
            }
            restore_context(&mut ctx, &mem, fpu);
            assert!(same(&ctx, &before));
        }
    }
}

#[test]
fn save_records_alignment_padding() {
    let mut ctx = sample_context(61);
    let mut mem = vec![0u32; 64];
    save_context(&mut ctx, &mut mem, FpuSave::Off);
    // 61 - 4 = 57 words: odd, so one padding word, then the record
    assert_eq!(ctx.sp, 54);
    assert_eq!(mem[54], 4);
    assert_eq!(mem[55], 0xcccc_cccc);
    assert_eq!(&mem[57..61], &[0x1111_1111, 0x2222_2222, 0x3333_3333, 0x4444_4444]);
}

#[test]
fn save_stores_floating_point_registers() {
    let mut ctx = sample_context(80);
    let d = ctx.d.clone();
    let mut mem = vec![0u32; 96];
    save_context(&mut ctx, &mut mem, FpuSave::LowAndHigh);
    // r0-r3 at 76..80, d0-d7 at 60..76, d16-d31 at 28..60, FPSCR and FPEXC at 26..28
    assert_eq!(mem[60], d[0] as u32);
    assert_eq!(mem[61], (d[0] >> 32) as u32);
    assert_eq!(mem[28], d[8] as u32);
    assert_eq!(mem[59], (d[23] >> 32) as u32);
    assert_eq!(&mem[26..28], &[0x0300_0000, 0x4000_0000]);
    // 26 is even: no padding
    assert_eq!(ctx.sp, 24);
    assert_eq!(mem[24], 0);
    assert_eq!(ctx.r0, 0);
    assert_eq!(ctx.r1, 0x4000_0000);
}
