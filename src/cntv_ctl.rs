//! CNTV_CTL (*Virtual Counter-timer Control Register*).
//!
//! The register itself is a `u32` that the caller owns: `read`, `write` and
//! `modify` act on it as the system-register instructions act on the
//! hardware register.

use vstd::prelude::*;
use crate::bits::{bit_at, read_bit, with_bit, write_bit};

verus! {

/// CNTV_CTL (*Virtual Counter-timer Control Register*) value.
#[derive(Debug, Clone, Copy, PartialEq, Eq, Structural)]
pub struct CntvCtl {
    pub raw: u32,
}

impl CntvCtl {
    /// The register word.
    pub open spec fn bits(self) -> u32 {
        self.raw
    }

    /// The status of the timer interrupt (bit 2, read-only).
    pub open spec fn spec_istatus(self) -> bool {
        bit_at(self.raw, 2)
    }

    /// Timer interrupt mask bit (bit 1): true where masked.
    pub open spec fn spec_imask(self) -> bool {
        bit_at(self.raw, 1)
    }

    /// Timer enabled (bit 0).
    pub open spec fn spec_enable(self) -> bool {
        bit_at(self.raw, 0)
    }

    pub fn new_with_raw_value(raw: u32) -> (r: CntvCtl)
        ensures
            r.bits() == raw,
    {
        CntvCtl { raw }
    }

    pub fn raw_value(&self) -> (r: u32)
        ensures
            r == self.bits(),
    {
        self.raw
    }

    pub fn istatus(&self) -> (r: bool)
        ensures
            r == self.spec_istatus(),
    {
        read_bit(self.raw, 2)
    }

    pub fn imask(&self) -> (r: bool)
        ensures
            r == self.spec_imask(),
    {
        read_bit(self.raw, 1)
    }

    pub fn enable(&self) -> (r: bool)
        ensures
            r == self.spec_enable(),
    {
        read_bit(self.raw, 0)
    }

    pub fn with_imask(self, v: bool) -> (r: CntvCtl)
        ensures
            r.bits() == with_bit(self.bits(), 1, v),
            r.spec_imask() == v,
            r.spec_enable() == self.spec_enable(),
            r.spec_istatus() == self.spec_istatus(),
    {
        CntvCtl { raw: write_bit(self.raw, 1, v) }
    }

    pub fn with_enable(self, v: bool) -> (r: CntvCtl)
        ensures
            r.bits() == with_bit(self.bits(), 0, v),
            r.spec_enable() == v,
            r.spec_imask() == self.spec_imask(),
            r.spec_istatus() == self.spec_istatus(),
    {
        CntvCtl { raw: write_bit(self.raw, 0, v) }
    }

    /// Reads CNTV_CTL.
    pub fn read(reg: &u32) -> (r: CntvCtl)
        ensures
            r.bits() == *reg,
    {
        CntvCtl { raw: *reg }
    }

    /// Writes CNTV_CTL.
    pub fn write(reg: &mut u32, value: CntvCtl)
        ensures
            *final(reg) == value.bits(),
    {
        *reg = value.raw;
    }

    /// Modifies CNTV_CTL: reads it, hands the value to `f`, and writes back
    /// what `f` returns.
    pub fn modify<F>(reg: &mut u32, f: F)
        where
            F: FnOnce(CntvCtl) -> CntvCtl,
        requires
            f.requires((CntvCtl { raw: *old(reg) },)),
        ensures
            exists|v: CntvCtl| f.ensures((CntvCtl { raw: *old(reg) },), v) && *final(reg) == v.bits(),
    {
        let value = Self::read(reg);
        let value = f(value);
        Self::write(reg, value);
    }
}

} // verus!
