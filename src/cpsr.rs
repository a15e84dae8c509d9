//! CPSR (*Current Program Status Register*) and the processor modes.

use vstd::prelude::*;
use crate::bits::{bit_at, read_bit, with_bit, write_bit};

verus! {

/// The privilege and execution modes of the processor.
#[derive(Debug, Clone, Copy, PartialEq, Eq, Structural)]
pub enum ProcessorMode {
    /// User mode
    Usr,
    /// FIQ mode
    Fiq,
    /// IRQ mode
    Irq,
    /// Supervisor mode
    Svc,
    /// Monitor mode
    Mon,
    /// Abort mode
    Abt,
    /// Hyp mode
    Hyp,
    /// Undefined mode
    Und,
    /// System mode
    Sys,
}

impl ProcessorMode {
    /// The 5-bit encoding of each mode in the CPSR's mode field.
    pub open spec fn code(self) -> u8 {
        match self {
            ProcessorMode::Usr => 0b10000,
            ProcessorMode::Fiq => 0b10001,
            ProcessorMode::Irq => 0b10010,
            ProcessorMode::Svc => 0b10011,
            ProcessorMode::Mon => 0b10110,
            ProcessorMode::Abt => 0b10111,
            ProcessorMode::Hyp => 0b11010,
            ProcessorMode::Und => 0b11011,
            ProcessorMode::Sys => 0b11111,
        }
    }

    /// The mode that `v` encodes, if any.
    pub open spec fn decode(v: u8) -> Option<ProcessorMode> {
        if v == 0b10000 {
            Some(ProcessorMode::Usr)
        } else if v == 0b10001 {
            Some(ProcessorMode::Fiq)
        } else if v == 0b10010 {
            Some(ProcessorMode::Irq)
        } else if v == 0b10011 {
            Some(ProcessorMode::Svc)
        } else if v == 0b10110 {
            Some(ProcessorMode::Mon)
        } else if v == 0b10111 {
            Some(ProcessorMode::Abt)
        } else if v == 0b11010 {
            Some(ProcessorMode::Hyp)
        } else if v == 0b11011 {
            Some(ProcessorMode::Und)
        } else if v == 0b11111 {
            Some(ProcessorMode::Sys)
        } else {
            None
        }
    }

    /// The encoding of this mode.
    pub fn to_code(self) -> (r: u8)
        ensures
            r == self.code(),
            r < 32,
    {
        match self {
            ProcessorMode::Usr => 0b10000,
            ProcessorMode::Fiq => 0b10001,
            ProcessorMode::Irq => 0b10010,
            ProcessorMode::Svc => 0b10011,
            ProcessorMode::Mon => 0b10110,
            ProcessorMode::Abt => 0b10111,
            ProcessorMode::Hyp => 0b11010,
            ProcessorMode::Und => 0b11011,
            ProcessorMode::Sys => 0b11111,
        }
    }

    /// The mode that `value` encodes; an encoding of no mode comes back
    /// unchanged as the error.
    pub fn try_from(value: u8) -> (r: Result<ProcessorMode, u8>)
        ensures
            r == (match ProcessorMode::decode(value) {
                Some(m) => Ok(m),
                None => Err(value),
            }),
    {
        match value {
            0b10000 => Ok(ProcessorMode::Usr),
            0b10001 => Ok(ProcessorMode::Fiq),
            0b10010 => Ok(ProcessorMode::Irq),
            0b10011 => Ok(ProcessorMode::Svc),
            0b10110 => Ok(ProcessorMode::Mon),
            0b10111 => Ok(ProcessorMode::Abt),
            0b11010 => Ok(ProcessorMode::Hyp),
            0b11011 => Ok(ProcessorMode::Und),
            0b11111 => Ok(ProcessorMode::Sys),
            _ => Err(value),
        }
    }
}

/// Bit of the I (IRQ mask) flag.
pub const I_BIT: u32 = 7;

/// Bit of the F (FIQ mask) flag.
pub const F_BIT: u32 = 6;

/// Bit of the T (Thumb state) flag.
pub const T_BIT: u32 = 5;

/// CPSR (*Current Program Status Register*) value; the saved copy of it
/// (SPSR) has the same layout.
#[derive(Debug, Clone, Copy, PartialEq, Eq, Structural)]
pub struct Cpsr {
    pub raw: u32,
}

impl Cpsr {
    /// The register word.
    pub open spec fn bits(self) -> u32 {
        self.raw
    }

    /// The mode field (bits 0 to 4).
    pub open spec fn spec_mode_bits(self) -> u8 {
        (self.raw & 0x1f) as u8
    }

    /// IRQ masked (bit 7).
    pub open spec fn spec_i(self) -> bool {
        bit_at(self.raw, I_BIT)
    }

    /// FIQ masked (bit 6).
    pub open spec fn spec_f(self) -> bool {
        bit_at(self.raw, F_BIT)
    }

    /// Thumb state (bit 5).
    pub open spec fn spec_t(self) -> bool {
        bit_at(self.raw, T_BIT)
    }

    pub fn new_with_raw_value(raw: u32) -> (r: Cpsr)
        ensures
            r.bits() == raw,
    {
        Cpsr { raw }
    }

    pub fn raw_value(&self) -> (r: u32)
        ensures
            r == self.bits(),
    {
        self.raw
    }

    pub fn i(&self) -> (r: bool)
        ensures
            r == self.spec_i(),
    {
        read_bit(self.raw, I_BIT)
    }

    pub fn f(&self) -> (r: bool)
        ensures
            r == self.spec_f(),
    {
        read_bit(self.raw, F_BIT)
    }

    pub fn t(&self) -> (r: bool)
        ensures
            r == self.spec_t(),
    {
        read_bit(self.raw, T_BIT)
    }

    /// The mode field's bits.
    pub fn mode_bits(&self) -> (r: u8)
        ensures
            r == self.spec_mode_bits(),
            r < 32,
    {
        let raw = self.raw;
        assert((raw & 0x1f) < 32) by (bit_vector);
        (raw & 0x1f) as u8
    }

    /// The mode that the mode field encodes, or the field itself where it
    /// encodes none.
    pub fn mode(&self) -> (r: Result<ProcessorMode, u8>)
        ensures
            r == (match ProcessorMode::decode(self.spec_mode_bits()) {
                Some(m) => Ok(m),
                None => Err(self.spec_mode_bits()),
            }),
    {
        ProcessorMode::try_from(self.mode_bits())
    }

    pub fn with_i(self, v: bool) -> (r: Cpsr)
        ensures
            r.bits() == with_bit(self.bits(), I_BIT, v),
            r.spec_i() == v,
            r.spec_f() == self.spec_f(),
            r.spec_t() == self.spec_t(),
            r.spec_mode_bits() == self.spec_mode_bits(),
    {
        proof {
            lemma_flag_keeps_mode(self.raw, I_BIT, v);
        }
        Cpsr { raw: write_bit(self.raw, I_BIT, v) }
    }

    pub fn with_f(self, v: bool) -> (r: Cpsr)
        ensures
            r.bits() == with_bit(self.bits(), F_BIT, v),
            r.spec_f() == v,
            r.spec_i() == self.spec_i(),
            r.spec_t() == self.spec_t(),
            r.spec_mode_bits() == self.spec_mode_bits(),
    {
        proof {
            lemma_flag_keeps_mode(self.raw, F_BIT, v);
        }
        Cpsr { raw: write_bit(self.raw, F_BIT, v) }
    }

    pub fn with_t(self, v: bool) -> (r: Cpsr)
        ensures
            r.bits() == with_bit(self.bits(), T_BIT, v),
            r.spec_t() == v,
            r.spec_i() == self.spec_i(),
            r.spec_f() == self.spec_f(),
            r.spec_mode_bits() == self.spec_mode_bits(),
    {
        proof {
            lemma_flag_keeps_mode(self.raw, T_BIT, v);
        }
        Cpsr { raw: write_bit(self.raw, T_BIT, v) }
    }

    pub fn with_mode(self, m: ProcessorMode) -> (r: Cpsr)
        ensures
            r.bits() == (self.bits() & !0x1fu32) | (m.code() as u32),
            r.spec_mode_bits() == m.code(),
            r.spec_i() == self.spec_i(),
            r.spec_f() == self.spec_f(),
            r.spec_t() == self.spec_t(),
    {
        let raw = self.raw;
        let c = m.to_code() as u32;
        let r = (raw & !0x1fu32) | c;
        assert(c < 32 ==> (r & 0x1f) == c) by (bit_vector)
            requires r == (raw & !0x1fu32) | c;
        assert(c < 32 ==> forall|n: u32| 5 <= n < 32 ==> #[trigger] ((r >> n) & 1) == ((raw >> n) & 1)) by (bit_vector)
            requires r == (raw & !0x1fu32) | c;
        Cpsr { raw: r }
    }
}

/// Writing a bit at or above bit 5 leaves the mode field alone.
pub proof fn lemma_flag_keeps_mode(raw: u32, n: u32, v: bool)
    requires
        5 <= n < 32,
    ensures
        (with_bit(raw, n, v) & 0x1f) == (raw & 0x1f),
{
    if v {
        assert(((raw | (1u32 << n)) & 0x1f) == (raw & 0x1f)) by (bit_vector)
            requires 5 <= n < 32;
    } else {
        assert(((raw & !(1u32 << n)) & 0x1f) == (raw & 0x1f)) by (bit_vector)
            requires 5 <= n < 32;
    }
}

/// Decoding the mode field is exact.
pub proof fn lemma_mode_decode_exact(m: ProcessorMode, v: u8)
    ensures
        m.code() < 32,
        ProcessorMode::decode(m.code()) == Some(m),
        ProcessorMode::decode(v) == Some(m) <==> v == m.code(),
{
}

} // verus!
