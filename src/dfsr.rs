//! DFSR (*Data Fault Status Register*).

use vstd::prelude::*;
use crate::bits::{bit_at, extract_u4, nibble_at, read_bit, with_bit, write_bit};
use crate::ifsr::{
    lemma_high_bit_keeps_fields, read_status_bits, status_bits, with_domain_bits,
    with_status_bits, write_domain_bits, write_status_bits, FsrStatus,
};

verus! {

/// Fault causes encoded by the status field of the DFSR: four of its own,
/// and those that it shares with the IFSR.
#[derive(Debug, Clone, Copy, PartialEq, Eq, Structural)]
pub enum DfsrStatus {
    AlignmentFault,
    FaultOnInstructionCacheMaintenance,
    AsyncExternalAbort,
    AsyncParityErrorOnMemAccess,
    CommonFsr(FsrStatus),
}

impl DfsrStatus {
    /// The architectural 5-bit status code of each cause.
    pub open spec fn code(self) -> u8 {
        match self {
            DfsrStatus::AlignmentFault => 0b00001,
            DfsrStatus::FaultOnInstructionCacheMaintenance => 0b00100,
            DfsrStatus::AsyncExternalAbort => 0b10110,
            DfsrStatus::AsyncParityErrorOnMemAccess => 0b11000,
            DfsrStatus::CommonFsr(s) => s.code(),
        }
    }

    /// The cause whose code is `v`, if there is one.
    pub open spec fn decode(v: u8) -> Option<DfsrStatus> {
        if v == 0b00001 {
            Some(DfsrStatus::AlignmentFault)
        } else if v == 0b00100 {
            Some(DfsrStatus::FaultOnInstructionCacheMaintenance)
        } else if v == 0b10110 {
            Some(DfsrStatus::AsyncExternalAbort)
        } else if v == 0b11000 {
            Some(DfsrStatus::AsyncParityErrorOnMemAccess)
        } else {
            match FsrStatus::decode(v) {
                Some(s) => Some(DfsrStatus::CommonFsr(s)),
                None => None,
            }
        }
    }

    /// The cause whose status code is `value`; a code that names no cause
    /// comes back unchanged as the error.
    pub fn try_from(value: u8) -> (r: Result<DfsrStatus, u8>)
        ensures
            r == (match DfsrStatus::decode(value) {
                Some(s) => Ok(s),
                None => Err(value),
            }),
    {
        match value {
            0b00001 => Ok(DfsrStatus::AlignmentFault),
            0b00100 => Ok(DfsrStatus::FaultOnInstructionCacheMaintenance),
            0b10110 => Ok(DfsrStatus::AsyncExternalAbort),
            0b11000 => Ok(DfsrStatus::AsyncParityErrorOnMemAccess),
            _ => match FsrStatus::try_from(value) {
                Ok(s) => Ok(DfsrStatus::CommonFsr(s)),
                Err(_) => Err(value),
            },
        }
    }
}

/// Decoding is exact: every cause's code is a 5-bit value that decodes to
/// that cause and to no other, and a value that decodes to a cause is that
/// cause's code.
pub proof fn lemma_dfsr_decode_exact(s: DfsrStatus, v: u8)
    ensures
        s.code() < 32,
        DfsrStatus::decode(s.code()) == Some(s),
        DfsrStatus::decode(v) == Some(s) <==> v == s.code(),
        DfsrStatus::decode(v) is Some ==> v < 32,
{
}

/// DFSR (*Data Fault Status Register*) value.
#[derive(Debug, Clone, Copy, PartialEq, Eq, Structural)]
pub struct Dfsr {
    pub raw: u32,
}

impl Dfsr {
    /// The register word.
    pub open spec fn bits(self) -> u32 {
        self.raw
    }

    /// External abort qualifier (bit 12).
    pub open spec fn spec_ext(self) -> bool {
        bit_at(self.raw, 12)
    }

    /// Write-not-read (bit 11).
    pub open spec fn spec_wnr(self) -> bool {
        bit_at(self.raw, 11)
    }

    /// Domain (bits 4 to 7).
    pub open spec fn spec_domain(self) -> u8 {
        nibble_at(self.raw, 4)
    }

    /// Status code (bits 0 to 3 and bit 10).
    pub open spec fn spec_status_raw(self) -> u8 {
        status_bits(self.raw)
    }

    /// Reads DFSR (*Data Fault Status Register*) from the register word.
    pub fn read(reg: &u32) -> (r: Dfsr)
        ensures
            r.bits() == *reg,
    {
        Dfsr { raw: *reg }
    }

    /// Writes DFSR (*Data Fault Status Register*) to the register word.
    pub fn write(reg: &mut u32, value: Dfsr)
        ensures
            *final(reg) == value.bits(),
    {
        *reg = value.raw;
    }

    pub fn new_with_raw_value(raw: u32) -> (r: Dfsr)
        ensures
            r.bits() == raw,
    {
        Dfsr { raw }
    }

    pub fn raw_value(&self) -> (r: u32)
        ensures
            r == self.bits(),
    {
        self.raw
    }

    pub fn ext(&self) -> (r: bool)
        ensures
            r == self.spec_ext(),
    {
        read_bit(self.raw, 12)
    }

    pub fn wnr(&self) -> (r: bool)
        ensures
            r == self.spec_wnr(),
    {
        read_bit(self.raw, 11)
    }

    pub fn domain(&self) -> (r: u8)
        ensures
            r == self.spec_domain(),
            r < 16,
    {
        let raw = self.raw;
        assert(((raw >> 4usize) & 0xf) < 16) by (bit_vector);
        extract_u4(raw, 4)
    }

    pub fn status_raw(&self) -> (r: u8)
        ensures
            r == self.spec_status_raw(),
            r < 32,
    {
        read_status_bits(self.raw)
    }

    /// The fault cause that the status field names, or the field itself
    /// where it names none.
    pub fn status(&self) -> (r: Result<DfsrStatus, u8>)
        ensures
            r == (match DfsrStatus::decode(self.spec_status_raw()) {
                Some(s) => Ok(s),
                None => Err(self.spec_status_raw()),
            }),
    {
        let status = self.status_raw();
        DfsrStatus::try_from(status)
    }

    pub fn with_ext(self, v: bool) -> (r: Dfsr)
        ensures
            r.bits() == with_bit(self.bits(), 12, v),
            r.spec_ext() == v,
            r.spec_wnr() == self.spec_wnr(),
            r.spec_domain() == self.spec_domain(),
            r.spec_status_raw() == self.spec_status_raw(),
    {
        proof {
            lemma_high_bit_keeps_fields(self.raw, 12, v);
        }
        Dfsr { raw: write_bit(self.raw, 12, v) }
    }

    pub fn with_wnr(self, v: bool) -> (r: Dfsr)
        ensures
            r.bits() == with_bit(self.bits(), 11, v),
            r.spec_wnr() == v,
            r.spec_ext() == self.spec_ext(),
            r.spec_domain() == self.spec_domain(),
            r.spec_status_raw() == self.spec_status_raw(),
    {
        proof {
            lemma_high_bit_keeps_fields(self.raw, 11, v);
        }
        Dfsr { raw: write_bit(self.raw, 11, v) }
    }

    pub fn with_domain(self, d: u8) -> (r: Dfsr)
        requires
            d < 16,
        ensures
            r.bits() == with_domain_bits(self.bits(), d),
            r.spec_domain() == d,
            r.spec_ext() == self.spec_ext(),
            r.spec_wnr() == self.spec_wnr(),
            r.spec_status_raw() == self.spec_status_raw(),
    {
        Dfsr { raw: write_domain_bits(self.raw, d) }
    }

    pub fn with_status_raw(self, s: u8) -> (r: Dfsr)
        requires
            s < 32,
        ensures
            r.bits() == with_status_bits(self.bits(), s),
            r.spec_status_raw() == s,
            r.spec_ext() == self.spec_ext(),
            r.spec_wnr() == self.spec_wnr(),
            r.spec_domain() == self.spec_domain(),
    {
        Dfsr { raw: write_status_bits(self.raw, s) }
    }
}

} // verus!
