//! The reset-time set-up: one stack per processor mode carved from a shared
//! top-of-stack address, the zero-filled and the copied data sections, and
//! the order of the start-up steps.

use vstd::prelude::*;
use crate::cpsr::{Cpsr, ProcessorMode};

verus! {

/// The size in bytes of each mode's stack.
#[derive(Debug, Clone, Copy, PartialEq, Eq, Structural)]
pub struct StackSizes {
    pub hyp: usize,
    pub und: usize,
    pub svc: usize,
    pub abt: usize,
    pub irq: usize,
    pub fiq: usize,
}

/// One step of stack set-up: switch to `mode` by writing `cpsr`, then set
/// that mode's stack pointer to `sp`.
#[derive(Debug, Clone, Copy, PartialEq, Eq, Structural)]
pub struct StackSetupStep {
    pub mode: ProcessorMode,
    pub cpsr: u32,
    pub sp: usize,
}

/// The CPSR value written to enter `mode` with IRQ and FIQ both masked.
pub open spec fn setup_word(mode: ProcessorMode) -> u32 {
    (mode.code() as u32) | 0xC0
}

/// Enters `mode` with IRQ and FIQ masked, from an all-zero status word.
pub fn mode_setup_word(mode: ProcessorMode) -> (r: u32)
    ensures
        r == setup_word(mode),
        (Cpsr { raw: r }).spec_mode_bits() == mode.code(),
        (Cpsr { raw: r }).spec_i(),
        (Cpsr { raw: r }).spec_f(),
        !(Cpsr { raw: r }).spec_t(),
{
    let c = Cpsr::new_with_raw_value(0).with_mode(mode).with_i(true).with_f(true);
    let code = mode.to_code() as u32;
    assert(code < 32 ==> (((0u32 & !0x1fu32) | code) | (1u32 << 7u32)) | (1u32 << 6u32) == code | 0xC0) by (bit_vector);
    assert(code < 32 ==> ((code | 0xC0) >> 5u32) & 1 == 0 && (code | 0xC0) & 0x1f == code) by (bit_vector);
    c.raw_value()
}

/// The stacks that fit below `top`: with `in_hyp`, Hyp mode's stack first;
/// then, each below the last, those of Undefined, Supervisor, Abort, IRQ
/// and FIQ modes; System mode takes the rest.
pub open spec fn spec_stack_plan(top: int, sizes: StackSizes, in_hyp: bool) -> Seq<(ProcessorMode, int)> {
    let base = if in_hyp { top - sizes.hyp } else { top };
    let und = base;
    let svc = und - sizes.und;
    let abt = svc - sizes.svc;
    let irq = abt - sizes.abt;
    let fiq = irq - sizes.irq;
    let sys = fiq - sizes.fiq;
    let rest = seq![
        (ProcessorMode::Und, und),
        (ProcessorMode::Svc, svc),
        (ProcessorMode::Abt, abt),
        (ProcessorMode::Irq, irq),
        (ProcessorMode::Fiq, fiq),
        (ProcessorMode::Sys, sys),
    ];
    if in_hyp { seq![(ProcessorMode::Hyp, top)] + rest } else { rest }
}

/// The total size of the stacks that are carved out.
pub open spec fn total_stack(sizes: StackSizes, in_hyp: bool) -> int {
    (if in_hyp { sizes.hyp as int } else { 0 }) + sizes.und + sizes.svc + sizes.abt + sizes.irq + sizes.fiq
}

/// The set-up steps of [`spec_stack_plan`].
pub open spec fn spec_stack_steps(top: int, sizes: StackSizes, in_hyp: bool) -> Seq<StackSetupStep> {
    spec_stack_plan(top, sizes, in_hyp).map_values(|p: (ProcessorMode, int)|
        StackSetupStep { mode: p.0, cpsr: setup_word(p.0), sp: p.1 as usize })
}

/// Computes each mode's initial stack pointer and the status word that
/// enters the mode, or `None` where the stacks do not fit below `top`.
pub fn stack_setup(top: usize, sizes: StackSizes, in_hyp: bool) -> (r: Option<Vec<StackSetupStep>>)
    ensures
        r is None <==> total_stack(sizes, in_hyp) > top,
        r is Some ==> r->0@ == spec_stack_steps(top as int, sizes, in_hyp),
        r is Some ==> forall|k: int| 0 <= k < r->0@.len() ==> 0 <= (#[trigger] spec_stack_plan(top as int, sizes, in_hyp)[k]).1 <= top,
{
    let base = if in_hyp {
        if sizes.hyp > top {
            return None;
        }
        top - sizes.hyp
    } else {
        top
    };
    if sizes.und > base || sizes.svc > base - sizes.und || sizes.abt > base - sizes.und - sizes.svc
        || sizes.irq > base - sizes.und - sizes.svc - sizes.abt
        || sizes.fiq > base - sizes.und - sizes.svc - sizes.abt - sizes.irq {
        return None;
    }
    let und = base;
    let svc = und - sizes.und;
    let abt = svc - sizes.svc;
    let irq = abt - sizes.abt;
    let fiq = irq - sizes.irq;
    let sys = fiq - sizes.fiq;
    let mut steps: Vec<StackSetupStep> = Vec::new();
    if in_hyp {
        steps.push(StackSetupStep { mode: ProcessorMode::Hyp, cpsr: mode_setup_word(ProcessorMode::Hyp), sp: top });
    }
    steps.push(StackSetupStep { mode: ProcessorMode::Und, cpsr: mode_setup_word(ProcessorMode::Und), sp: und });
    steps.push(StackSetupStep { mode: ProcessorMode::Svc, cpsr: mode_setup_word(ProcessorMode::Svc), sp: svc });
    steps.push(StackSetupStep { mode: ProcessorMode::Abt, cpsr: mode_setup_word(ProcessorMode::Abt), sp: abt });
    steps.push(StackSetupStep { mode: ProcessorMode::Irq, cpsr: mode_setup_word(ProcessorMode::Irq), sp: irq });
    steps.push(StackSetupStep { mode: ProcessorMode::Fiq, cpsr: mode_setup_word(ProcessorMode::Fiq), sp: fiq });
    steps.push(StackSetupStep { mode: ProcessorMode::Sys, cpsr: mode_setup_word(ProcessorMode::Sys), sp: sys });
    assert(steps@ =~= spec_stack_steps(top as int, sizes, in_hyp));
    Some(steps)
}

/// Where every size is a multiple of eight and so is the top, every stack
/// pointer is 8-byte aligned.
pub proof fn lemma_stacks_aligned(top: int, sizes: StackSizes, in_hyp: bool, k: int)
    requires
        top % 8 == 0,
        sizes.hyp % 8 == 0,
        sizes.und % 8 == 0,
        sizes.svc % 8 == 0,
        sizes.abt % 8 == 0,
        sizes.irq % 8 == 0,
        sizes.fiq % 8 == 0,
        0 <= k < spec_stack_plan(top, sizes, in_hyp).len(),
    ensures
        spec_stack_plan(top, sizes, in_hyp)[k].1 % 8 == 0,
{
}

/// The memory after section set-up: the data section `[sdata, edata)`
/// holds the words from `sidata` on, the rest of `[sbss, ebss)` is zero, and
/// every other word is as it was.
pub open spec fn spec_init_segments(m: Seq<u32>, sbss: int, ebss: int, sdata: int, edata: int, sidata: int) -> Seq<u32> {
    Seq::new(m.len(), |i: int|
        if sdata <= i < edata {
            m[sidata + (i - sdata)]
        } else if sbss <= i < ebss {
            0
        } else {
            m[i]
        })
}

/// Whether the section bounds lie in memory, and the initial values lie
/// outside the zero-filled section and either are the data section itself
/// or lie outside it.
pub open spec fn segments_valid(len: int, sbss: int, ebss: int, sdata: int, edata: int, sidata: int) -> bool {
    &&& sbss <= ebss <= len
    &&& sdata <= edata <= len
    &&& sidata + (edata - sdata) <= len
    &&& (sidata + (edata - sdata) <= sbss || ebss <= sidata || sdata == edata)
    &&& (sidata == sdata || sidata + (edata - sdata) <= sdata || edata <= sidata)
}

/// Zero-fills the `.bss` section and copies the `.data` section's initial
/// values into place. Addresses are word indices into `mem`.
pub fn init_segments(mem: &mut Vec<u32>, sbss: usize, ebss: usize, sdata: usize, edata: usize, sidata: usize)
    requires
        segments_valid(old(mem)@.len() as int, sbss as int, ebss as int, sdata as int, edata as int, sidata as int),
    ensures
        final(mem)@ == spec_init_segments(old(mem)@, sbss as int, ebss as int, sdata as int, edata as int, sidata as int),
{
    let ghost m0 = mem@;
    let mut i = sbss;
    while i < ebss
        invariant
            sbss <= i <= ebss,
            mem@.len() == m0.len(),
            segments_valid(m0.len() as int, sbss as int, ebss as int, sdata as int, edata as int, sidata as int),
            forall|j: int| 0 <= j < mem@.len() ==> #[trigger] mem@[j] == (if sbss <= j < i { 0 } else { m0[j] }),
        decreases ebss - i,
    {
        mem.set(i, 0);
        i = i + 1;
    }
    let ghost m1 = mem@;
    let n: usize = mem.len();
    let mut dst = sdata;
    let mut src = sidata;
    while dst < edata
        invariant
            sdata <= dst <= edata,
            src == sidata + (dst - sdata),
            mem@.len() == m0.len(),
            m1.len() == m0.len(),
            n == m0.len(),
            segments_valid(m0.len() as int, sbss as int, ebss as int, sdata as int, edata as int, sidata as int),
            forall|j: int| 0 <= j < mem@.len() ==> #[trigger] m1[j] == (if sbss <= j < ebss { 0 } else { m0[j] }),
            forall|j: int| 0 <= j < mem@.len() ==> #[trigger] mem@[j] == (if sdata <= j < dst { m0[sidata + (j - sdata)] } else { m1[j] }),
        decreases edata - dst,
    {
        let v = mem[src];
        mem.set(dst, v);
        dst = dst + 1;
        src = src + 1;
    }
    assert(mem@ =~= spec_init_segments(m0, sbss as int, ebss as int, sdata as int, edata as int, sidata as int));
}

/// The steps of the reset sequence.
#[derive(Debug, Clone, Copy, PartialEq, Eq, Structural)]
pub enum StartupStep {
    /// Set up Hyp mode's stack, vector base and access control, then return
    /// into System mode
    LeaveHyp,
    /// Wait until the primary core releases this one
    WaitForRelease,
    /// Set every mode's stack pointer, with interrupts masked
    StackSetup,
    /// Point the vector base register at the vector table
    SetVectorBase,
    /// Zero `.bss` and copy `.data`
    InitSegments,
    /// Grant coprocessor access and enable the floating-point unit
    EnableFpu,
    /// Zero the general-purpose registers
    ClearRegisters,
    /// Call the application's entry point
    CallEntry,
    /// Idle forever, should the entry point return
    Idle,
}

/// How a core starts.
#[derive(Debug, Clone, Copy, PartialEq, Eq, Structural)]
pub struct StartupConfig {
    /// The core has a Hyp mode to start in and a vector base register
    pub has_hyp: bool,
    /// The core currently runs in Hyp mode
    pub in_hyp: bool,
    /// A floating-point unit is configured
    pub fpu: bool,
    /// This core initialises the shared sections; other cores wait
    pub primary: bool,
}

/// The reset sequence, in order. The primary core leaves Hyp mode where it
/// runs in it, sets up its stacks, sets the vector base where the core has
/// one, initialises the sections, enables the floating-point unit where one
/// is configured, clears its registers and calls the entry point. Any other
/// core waits to be released, sets up its stacks and calls its entry point.
pub open spec fn spec_startup_plan(c: StartupConfig) -> Seq<StartupStep> {
    if c.primary {
        (if c.has_hyp && c.in_hyp { seq![StartupStep::LeaveHyp] } else { seq![] })
            + seq![StartupStep::StackSetup]
            + (if c.has_hyp { seq![StartupStep::SetVectorBase] } else { seq![] })
            + seq![StartupStep::InitSegments]
            + (if c.fpu { seq![StartupStep::EnableFpu] } else { seq![] })
            + seq![StartupStep::ClearRegisters, StartupStep::CallEntry, StartupStep::Idle]
    } else {
        seq![StartupStep::WaitForRelease, StartupStep::StackSetup, StartupStep::CallEntry, StartupStep::Idle]
    }
}

/// Lists the reset sequence's steps for a core.
pub fn startup_plan(c: StartupConfig) -> (r: Vec<StartupStep>)
    ensures
        r@ == spec_startup_plan(c),
{
    let mut r: Vec<StartupStep> = Vec::new();
    if !c.primary {
        r.push(StartupStep::WaitForRelease);
        r.push(StartupStep::StackSetup);
        r.push(StartupStep::CallEntry);
        r.push(StartupStep::Idle);
        assert(r@ =~= spec_startup_plan(c));
        return r;
    }
    if c.has_hyp && c.in_hyp {
        r.push(StartupStep::LeaveHyp);
    }
    r.push(StartupStep::StackSetup);
    if c.has_hyp {
        r.push(StartupStep::SetVectorBase);
    }
    r.push(StartupStep::InitSegments);
    if c.fpu {
        r.push(StartupStep::EnableFpu);
    }
    r.push(StartupStep::ClearRegisters);
    r.push(StartupStep::CallEntry);
    r.push(StartupStep::Idle);
    assert(r@ =~= spec_startup_plan(c));
    r
}

} // verus!
