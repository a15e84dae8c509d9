use cortex_ar::cpsr::{Cpsr, ProcessorMode};
use cortex_ar::startup::{
    init_segments, mode_setup_word, stack_setup, startup_plan, StackSizes, StartupConfig,
    StartupStep,
};

fn sizes() -> StackSizes {
    StackSizes { hyp: 0x100, und: 0x10, svc: 0x20, abt: 0x30, irq: 0x40, fiq: 0x50 }
}

#[test]
fn mode_words_mask_both_interrupts() {
    assert_eq!(mode_setup_word(ProcessorMode::Und), 0xdb);
    assert_eq!(mode_setup_word(ProcessorMode::Sys), 0xdf);
    let c = Cpsr::new_with_raw_value(mode_setup_word(ProcessorMode::Irq));
    assert!(c.i() && c.f() && !c.t());
    assert_eq!(c.mode(), Ok(ProcessorMode::Irq));
}

#[test]
fn stacks_carved_top_down() {
    let steps = stack_setup(0x1000, sizes(), false).unwrap();
    let got: Vec<(ProcessorMode, usize)> = steps.iter().map(|s| (s.mode, s.sp)).collect();
    assert_eq!(
        got,
        vec![
            (ProcessorMode::Und, 0x1000),
            (ProcessorMode::Svc, 0xff0),
            (ProcessorMode::Abt, 0xfd0),
            (ProcessorMode::Irq, 0xfa0),
            (ProcessorMode::Fiq, 0xf60),
            (ProcessorMode::Sys, 0xf10),
        ]
    );
    assert_eq!(steps[0].cpsr, 0xdb);
}

#[test]
fn stacks_with_hyp() {
    let steps = stack_setup(0x1000, sizes(), true).unwrap();
    assert_eq!(steps.len(), 7);
    assert_eq!((steps[0].mode, steps[0].sp), (ProcessorMode::Hyp, 0x1000));
    assert_eq!((steps[1].mode, steps[1].sp), (ProcessorMode::Und, 0xf00));
    assert_eq!((steps[6].mode, steps[6].sp), (ProcessorMode::Sys, 0xe10));
}

#[test]
fn stacks_that_do_not_fit() {
    assert!(stack_setup(0xef, sizes(), false).is_none());
    assert!(stack_setup(0xf0, sizes(), false).is_some());
    assert!(stack_setup(0x1ef, sizes(), true).is_none());
    assert!(stack_setup(0x50, StackSizes { hyp: 0x60, ..sizes() }, true).is_none());
}

#[test]
fn sections_zeroed_and_copied() {
    let mut mem: Vec<u32> = (0..16).map(|i| 100 + i).collect();
    // bss: [2, 5), data: [6, 9) from [12, 15)
    init_segments(&mut mem, 2, 5, 6, 9, 12);
    assert_eq!(
        mem,
        vec![100, 101, 0, 0, 0, 105, 112, 113, 114, 109, 110, 111, 112, 113, 114, 115]
    );
}

#[test]
fn sections_empty() {
    let mut mem: Vec<u32> = vec![7; 4];
    init_segments(&mut mem, 1, 1, 2, 2, 3);
    assert_eq!(mem, vec![7; 4]);
}

#[test]
fn startup_orders() {
    let primary = startup_plan(StartupConfig { has_hyp: true, in_hyp: true, fpu: true, primary: true });
    assert_eq!(
        primary,
        vec![
            StartupStep::LeaveHyp,
            StartupStep::StackSetup,
            StartupStep::SetVectorBase,
            StartupStep::InitSegments,
            StartupStep::EnableFpu,
            StartupStep::ClearRegisters,
            StartupStep::CallEntry,
            StartupStep::Idle,
        ]
    );
    let v7 = startup_plan(StartupConfig { has_hyp: false, in_hyp: false, fpu: false, primary: true });
    assert_eq!(
        v7,
        vec![
            StartupStep::StackSetup,
            StartupStep::InitSegments,
            StartupStep::ClearRegisters,
            StartupStep::CallEntry,
            StartupStep::Idle,
        ]
    );
    let secondary = startup_plan(StartupConfig { has_hyp: true, in_hyp: true, fpu: true, primary: false });
    assert_eq!(
        secondary,
        vec![StartupStep::WaitForRelease, StartupStep::StackSetup, StartupStep::CallEntry, StartupStep::Idle]
    );
}
