//! The register-saving sequences that wrap every exception handler call.
//!
//! The stack is word-addressed memory: `mem[w]` is the word at byte address
//! `4 * w`, and a stack pointer is a word index, so the byte stack pointer is
//! 8-byte aligned exactly where the word index is even. The stack grows down.

use vstd::prelude::*;

verus! {

/// Number of doubleword floating-point registers a context holds: `d0`-`d7`,
/// then `d16`-`d31`.
pub const SAVED_D_REGS: usize = 24;

/// Number of registers in the low bank, `d0`-`d7`.
pub const LOW_D_REGS: usize = 8;

/// The most words that the save sequence pushes: four general registers,
/// forty-eight words of floating-point registers, two floating-point control
/// words, one padding word and two words of alignment record.
pub const MAX_FRAME_WORDS: usize = 57;

/// Which floating-point state the exception entry sequence saves.
#[derive(Debug, Clone, Copy, PartialEq, Eq, Structural)]
pub enum FpuSave {
    /// No floating-point unit in use: nothing
    Off,
    /// `d0`-`d7`, FPSCR and FPEXC
    Low,
    /// `d0`-`d7`, `d16`-`d31`, FPSCR and FPEXC
    LowAndHigh,
}

/// The registers that a handler call may clobber, and the stack pointer.
pub struct Context {
    pub r0: u32,
    pub r1: u32,
    pub r2: u32,
    pub r3: u32,
    pub r12: u32,
    /// Stack pointer, as a word index
    pub sp: usize,
    /// `d0` to `d7`, then `d16` to `d31`
    pub d: Vec<u64>,
    pub fpscr: u32,
    pub fpexc: u32,
}

/// The mathematical value of a [`Context`].
pub struct ContextView {
    pub r0: u32,
    pub r1: u32,
    pub r2: u32,
    pub r3: u32,
    pub r12: u32,
    pub sp: int,
    pub d: Seq<u64>,
    pub fpscr: u32,
    pub fpexc: u32,
}

impl View for Context {
    type V = ContextView;

    open spec fn view(&self) -> ContextView {
        ContextView {
            r0: self.r0,
            r1: self.r1,
            r2: self.r2,
            r3: self.r3,
            r12: self.r12,
            sp: self.sp as int,
            d: self.d@,
            fpscr: self.fpscr,
            fpexc: self.fpexc,
        }
    }
}

impl Context {
    pub open spec fn wf(&self) -> bool {
        self.d@.len() == SAVED_D_REGS
    }
}

/// `m` with `vals` written from word `at` upwards.
pub open spec fn stored(m: Seq<u32>, at: int, vals: Seq<u32>) -> Seq<u32> {
    Seq::new(m.len(), |i: int| if at <= i < at + vals.len() { vals[i - at] } else { m[i] })
}

/// Low word of a doubleword.
pub open spec fn lo(x: u64) -> u32 {
    (x & 0xffff_ffff) as u32
}

/// High word of a doubleword.
pub open spec fn hi(x: u64) -> u32 {
    (x >> 32) as u32
}

/// The doubleword made of two words.
pub open spec fn join(l: u32, h: u32) -> u64 {
    ((h as u64) << 32) | (l as u64)
}

/// The words that `vpush` stores for the registers `d`, lowest address first.
pub open spec fn d_words(d: Seq<u64>) -> Seq<u32> {
    Seq::new(2 * d.len(), |i: int| if i % 2 == 0 { lo(d[i / 2]) } else { hi(d[i / 2]) })
}

/// The registers that `vpop` loads from the words `w`.
pub open spec fn words_d(w: Seq<u32>) -> Seq<u64> {
    Seq::new(w.len() / 2, |k: int| join(w[2 * k], w[2 * k + 1]))
}

/// The number of words that the save sequence pushes before it aligns the
/// stack.
pub open spec fn fixed_frame_words(fpu: FpuSave) -> int {
    match fpu {
        FpuSave::Off => 4,
        FpuSave::Low => 22,
        FpuSave::LowAndHigh => 54,
    }
}

/// The state after the save sequence.
pub open spec fn spec_save(c: ContextView, m: Seq<u32>, fpu: FpuSave) -> (ContextView, Seq<u32>) {
    let s1 = c.sp - 4;
    let m1 = stored(m, s1, seq![c.r0, c.r1, c.r2, c.r3]);
    let s2 = s1 - (fixed_frame_words(fpu) - 4);
    let m2 = match fpu {
        FpuSave::Off => m1,
        FpuSave::Low => stored(stored(m1, s1 - 16, d_words(c.d.subrange(0, 8))), s2, seq![c.fpscr, c.fpexc]),
        FpuSave::LowAndHigh => stored(
            stored(stored(m1, s1 - 16, d_words(c.d.subrange(0, 8))), s1 - 48, d_words(c.d.subrange(8, 24))),
            s2,
            seq![c.fpscr, c.fpexc],
        ),
    };
    let r1 = if fpu != FpuSave::Off { c.fpexc } else { c.r1 };
    let pad = s2 % 2;
    let r0 = (4 * pad) as u32;
    let s3 = s2 - pad - 2;
    let m3 = stored(m2, s3, seq![r0, c.r12]);
    (ContextView { r0, r1, sp: s3, ..c }, m3)
}

/// The state after the restore sequence.
pub open spec fn spec_restore(c: ContextView, m: Seq<u32>, fpu: FpuSave) -> ContextView {
    let r0 = m[c.sp];
    let r12 = m[c.sp + 1];
    let t1 = c.sp + 2 + r0 / 4;
    let on = fpu != FpuSave::Off;
    let fpscr = if on { m[t1] } else { c.fpscr };
    let fpexc = if on { m[t1 + 1] } else { c.fpexc };
    let t2 = t1 + fixed_frame_words(fpu) - 4;
    let d = match fpu {
        FpuSave::Off => c.d,
        FpuSave::Low => words_d(m.subrange(t2 - 16, t2)) + c.d.subrange(8, 24),
        FpuSave::LowAndHigh => words_d(m.subrange(t2 - 16, t2)) + words_d(m.subrange(t1 + 2, t2 - 16)),
    };
    ContextView {
        r0: m[t2],
        r1: m[t2 + 1],
        r2: m[t2 + 2],
        r3: m[t2 + 3],
        r12,
        sp: t2 + 4,
        d,
        fpscr,
        fpexc,
    }
}

/// Whether `m` holds, at stack pointer `sp`, a frame that the restore
/// sequence can pop: an alignment record of 0 or 4 bytes, and all the words
/// that it reads.
pub open spec fn restorable(sp: int, m: Seq<u32>, fpu: FpuSave) -> bool {
    0 <= sp && sp + 2 <= m.len() && (m[sp] == 0 || m[sp] == 4) && sp + 2 + m[sp] / 4
        + fixed_frame_words(fpu) <= m.len()
}

/// Writes `vals` into `mem` from word `at` upwards.
fn store_words(mem: &mut Vec<u32>, at: usize, vals: &Vec<u32>)
    requires
        at + vals@.len() <= old(mem)@.len(),
    ensures
        final(mem)@ == stored(old(mem)@, at as int, vals@),
{
    let n: usize = mem.len();
    let mut k: usize = 0;
    while k < vals.len()
        invariant
            n == mem@.len(),
            k <= vals@.len(),
            at + vals@.len() <= mem@.len(),
            mem@.len() == old(mem)@.len(),
            forall|i: int| 0 <= i < mem@.len() ==> #[trigger] mem@[i] == (if at <= i < at + k { vals@[i - at] } else { old(mem)@[i] }),
        decreases vals@.len() - k,
    {
        mem.set(at + k, vals[k]);
        k = k + 1;
    }
    assert(mem@ =~= stored(old(mem)@, at as int, vals@));
}

/// Splitting a doubleword into words and joining them gives it back.
pub proof fn lemma_join_split(x: u64)
    ensures
        join(lo(x), hi(x)) == x,
{
    assert((((((x >> 32) as u32) as u64) << 32) | (((x & 0xffff_ffff) as u32) as u64)) == x) by (bit_vector);
}

/// The floating-point registers come back from the words that hold them.
pub proof fn lemma_d_words_round_trip(d: Seq<u64>)
    ensures
        words_d(d_words(d)) == d,
{
    let w = d_words(d);
    assert(w.len() / 2 == d.len());
    assert forall|k: int| 0 <= k < d.len() implies #[trigger] words_d(w)[k] == d[k] by {
        assert((2 * k) % 2 == 0 && (2 * k) / 2 == k);
        assert((2 * k + 1) % 2 == 1 && (2 * k + 1) / 2 == k);
        lemma_join_split(d[k]);
    }
    assert(words_d(w) =~= d);
}

/// The words that hold the floating-point registers `d[from..to]`.
fn d_to_words(d: &Vec<u64>, from: usize, to: usize) -> (r: Vec<u32>)
    requires
        from <= to <= d@.len(),
        to <= SAVED_D_REGS,
    ensures
        r@ == d_words(d@.subrange(from as int, to as int)),
{
    let ghost ds = d@.subrange(from as int, to as int);
    let mut r: Vec<u32> = Vec::new();
    let mut k: usize = from;
    while k < to
        invariant
            from <= k <= to,
            to <= d@.len(),
            to <= SAVED_D_REGS,
            ds == d@.subrange(from as int, to as int),
            r@.len() == 2 * (k - from),
            forall|i: int| 0 <= i < 2 * (k - from) ==> #[trigger] r@[i] == d_words(ds)[i],
        decreases to - k,
    {
        let x = d[k];
        let l = (x & 0xffff_ffff) as u32;
        let h = (x >> 32) as u32;
        proof {
            let i = 2 * (k - from) as int;
            assert(i % 2 == 0 && i / 2 == k - from);
            assert((i + 1) % 2 == 1 && (i + 1) / 2 == k - from);
        }
        r.push(l);
        r.push(h);
        k = k + 1;
    }
    assert(r@ =~= d_words(ds));
    r
}

/// The `count` floating-point registers held by the words from `at`
/// upwards, appended to `out`.
fn words_to_d(mem: &Vec<u32>, at: usize, count: usize, out: &mut Vec<u64>)
    requires
        at + 2 * count <= mem@.len(),
    ensures
        final(out)@ == old(out)@ + words_d(mem@.subrange(at as int, at + 2 * count)),
{
    let ghost w = mem@.subrange(at as int, at + 2 * count);
    let ghost start = out@;
    let n: usize = mem.len();
    let mut k: usize = 0;
    while k < count
        invariant
            k <= count,
            at + 2 * count <= mem@.len(),
            n == mem@.len(),
            w == mem@.subrange(at as int, at + 2 * count),
            out@.len() == start.len() + k,
            forall|i: int| 0 <= i < start.len() ==> #[trigger] out@[i] == start[i],
            forall|i: int| 0 <= i < k ==> #[trigger] out@[start.len() + i] == words_d(w)[i],
        decreases count - k,
    {
        let l = mem[at + 2 * k];
        let h = mem[at + 2 * k + 1];
        out.push(((h as u64) << 32) | (l as u64));
        k = k + 1;
    }
    assert(w.len() == 2 * count);
    assert(words_d(w).len() == count);
    assert forall|i: int| 0 <= i < out@.len() implies #[trigger] out@[i] == (start + words_d(w))[i] by {
        if i >= start.len() {
            let j = i - start.len();
            assert(out@[start.len() + j] == words_d(w)[j]);
        }
    }
    assert(out@ =~= start + words_d(w));
}

/// The save sequence: pushes `r0`-`r3`, then the floating-point registers
/// that `fpu` selects with FPSCR and FPEXC, then moves the stack pointer
/// down to an 8-byte boundary and pushes the size of that move with `r12`.
pub fn save_context(ctx: &mut Context, mem: &mut Vec<u32>, fpu: FpuSave)
    requires
        old(ctx).wf(),
        MAX_FRAME_WORDS <= old(ctx).sp <= old(mem)@.len(),
    ensures
        final(ctx).wf(),
        (final(ctx)@, final(mem)@) == spec_save(old(ctx)@, old(mem)@, fpu),
        final(ctx).sp % 2 == 0,
{
    let ghost c0 = ctx@;
    let s1 = ctx.sp - 4;
    let gp = vec![ctx.r0, ctx.r1, ctx.r2, ctx.r3];
    assert(gp@ =~= seq![c0.r0, c0.r1, c0.r2, c0.r3]);
    store_words(mem, s1, &gp);
    let mut sp = s1;
    match fpu {
        FpuSave::Off => {},
        _ => {
            let low = d_to_words(&ctx.d, 0, LOW_D_REGS);
            store_words(mem, s1 - 16, &low);
            sp = s1 - 18;
            if fpu == FpuSave::LowAndHigh {
                let high = d_to_words(&ctx.d, LOW_D_REGS, SAVED_D_REGS);
                store_words(mem, s1 - 48, &high);
                sp = s1 - 50;
            }
            let fp = vec![ctx.fpscr, ctx.fpexc];
            assert(fp@ =~= seq![c0.fpscr, c0.fpexc]);
            store_words(mem, sp, &fp);
            ctx.r0 = ctx.fpscr;
            ctx.r1 = ctx.fpexc;
        },
    }
    let pad = sp % 2;
    ctx.r0 = (4 * pad) as u32;
    sp = sp - pad - 2;
    let rec = vec![ctx.r0, ctx.r12];
    assert(rec@ =~= seq![ctx.r0, c0.r12]);
    store_words(mem, sp, &rec);
    ctx.sp = sp;
    assert(ctx@.d == c0.d);
}

/// The restore sequence: pops the alignment record and `r12`, undoes the
/// alignment move, then pops FPSCR, FPEXC and the floating-point registers
/// that `fpu` selects, then pops `r0`-`r3`.
pub fn restore_context(ctx: &mut Context, mem: &Vec<u32>, fpu: FpuSave)
    requires
        old(ctx).wf(),
        restorable(old(ctx).sp as int, mem@, fpu),
    ensures
        final(ctx).wf(),
        final(ctx)@ == spec_restore(old(ctx)@, mem@, fpu),
{
    let ghost c0 = ctx@;
    let sp = ctx.sp;
    let n: usize = mem.len();
    let r0 = mem[sp];
    ctx.r12 = mem[sp + 1];
    let t1 = sp + 2 + (r0 / 4) as usize;
    let mut t = t1;
    match fpu {
        FpuSave::Off => {},
        _ => {
            ctx.fpscr = mem[t1];
            ctx.fpexc = mem[t1 + 1];
            let mut d: Vec<u64> = Vec::new();
            if fpu == FpuSave::LowAndHigh {
                let mut high: Vec<u64> = Vec::new();
                words_to_d(mem, t1 + 2, 16, &mut high);
                words_to_d(mem, t1 + 34, LOW_D_REGS, &mut d);
                d.append(&mut high);
                t = t1 + 50;
            } else {
                words_to_d(mem, t1 + 2, LOW_D_REGS, &mut d);
                let mut k: usize = LOW_D_REGS;
                while k < SAVED_D_REGS
                    invariant
                        LOW_D_REGS <= k <= SAVED_D_REGS,
                        ctx.d@ == c0.d,
                        c0.d.len() == SAVED_D_REGS,
                        d@ =~= words_d(mem@.subrange(t1 + 2, t1 + 18)) + c0.d.subrange(8, k as int),
                    decreases SAVED_D_REGS - k,
                {
                    d.push(ctx.d[k]);
                    k = k + 1;
                    assert(d@ =~= words_d(mem@.subrange(t1 + 2, t1 + 18)) + c0.d.subrange(8, k as int));
                }
                t = t1 + 18;
            }
            ctx.d = d;
        },
    }
    ctx.r0 = mem[t];
    ctx.r1 = mem[t + 1];
    ctx.r2 = mem[t + 2];
    ctx.r3 = mem[t + 3];
    ctx.sp = t + 4;
}

/// Saving and then restoring gives back every saved register and the stack
/// pointer exactly, whatever the handler in between did to the registers
/// that it may clobber and to the stack below the saved frame, and whatever
/// the padding word held. Floating-point state that is not saved is left to
/// the handler to keep.
pub proof fn lemma_save_restore_symmetric(c: ContextView, m: Seq<u32>, fpu: FpuSave, h: ContextView, hm: Seq<u32>)
    requires
        c.d.len() == SAVED_D_REGS,
        MAX_FRAME_WORDS <= c.sp <= m.len(),
        h.sp == spec_save(c, m, fpu).0.sp,
        hm.len() == m.len(),
        forall|i: int| h.sp <= i < c.sp ==> hm[i] == #[trigger] spec_save(c, m, fpu).1[i],
        fpu == FpuSave::Off ==> h.d == c.d && h.fpscr == c.fpscr && h.fpexc == c.fpexc,
        fpu == FpuSave::Low ==> h.d.subrange(8, 24) == c.d.subrange(8, 24),
    ensures
        restorable(h.sp, hm, fpu),
        spec_restore(h, hm, fpu) == c,
{
    let s = spec_save(c, m, fpu);
    let sm = s.1;
    let s1 = c.sp - 4;
    let s2 = s1 - (fixed_frame_words(fpu) - 4);
    let pad = s2 % 2;
    assert(hm[h.sp] == sm[h.sp]);
    assert(hm[h.sp + 1] == sm[h.sp + 1]);
    assert(hm[h.sp] == 4 * pad);
    assert(hm[h.sp] / 4 == pad);
    let t1 = h.sp + 2 + pad;
    assert(t1 == s2);
    let t2 = t1 + fixed_frame_words(fpu) - 4;
    assert(t2 == s1);
    if fpu != FpuSave::Off {
        assert(hm[t1] == sm[t1]);
        assert(hm[t1 + 1] == sm[t1 + 1]);
        let low = c.d.subrange(0, 8);
        let w = hm.subrange(t2 - 16, t2);
        assert(w =~= d_words(low)) by {
            assert forall|i: int| 0 <= i < 16 implies #[trigger] w[i] == d_words(low)[i] by {
                assert(hm[t2 - 16 + i] == sm[t2 - 16 + i]);
            }
        }
        lemma_d_words_round_trip(low);
        if fpu == FpuSave::LowAndHigh {
            let high = c.d.subrange(8, 24);
            let wh = hm.subrange(t1 + 2, t2 - 16);
            assert(wh =~= d_words(high)) by {
                assert forall|i: int| 0 <= i < 32 implies #[trigger] wh[i] == d_words(high)[i] by {
                    assert(hm[t1 + 2 + i] == sm[t1 + 2 + i]);
                }
            }
            lemma_d_words_round_trip(high);
            assert(low + high =~= c.d);
        } else {
            assert(low + h.d.subrange(8, 24) =~= c.d);
        }
    }
    assert(hm[t2] == sm[t2]);
    assert(hm[t2 + 1] == sm[t2 + 1]);
    assert(hm[t2 + 2] == sm[t2 + 2]);
    assert(hm[t2 + 3] == sm[t2 + 3]);
}

/// Save followed at once by restore reproduces the register file and the
/// stack pointer.
pub proof fn lemma_save_then_restore(c: ContextView, m: Seq<u32>, fpu: FpuSave)
    requires
        c.d.len() == SAVED_D_REGS,
        MAX_FRAME_WORDS <= c.sp <= m.len(),
    ensures
        restorable(spec_save(c, m, fpu).0.sp, spec_save(c, m, fpu).1, fpu),
        spec_restore(spec_save(c, m, fpu).0, spec_save(c, m, fpu).1, fpu) == c,
{
    let s = spec_save(c, m, fpu);
    lemma_save_restore_symmetric(c, m, fpu, s.0, s.1);
}

} // verus!
