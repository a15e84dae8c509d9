//! IFSR (*Instruction Fault Status Register*) and the fault causes that it
//! shares with the DFSR.

use vstd::prelude::*;
use crate::bits::{bit_at, extract_u4, nibble_at, read_bit, with_bit, write_bit};

verus! {

/// Fault causes encoded by the 5-bit status field of the IFSR, which the DFSR
/// uses too.
#[derive(Debug, Clone, Copy, PartialEq, Eq, Structural)]
pub enum FsrStatus {
    SyncExtAbortOnTranslationTableWalkFirstLevel,
    SyncExtAbortOnTranslationTableWalkSecondLevel,
    SyncParErrorOnTranslationTableWalkFirstLevel,
    SyncParErrorOnTranslationTableWalkSecondLevel,
    TranslationFaultFirstLevel,
    TranslationFaultSecondLevel,
    AccessFlagFaultFirstLevel,
    AccessFlagFaultSecondLevel,
    DomainFaultFirstLevel,
    DomainFaultSecondLevel,
    PermissionFaultFirstLevel,
    PermissionFaultSecondLevel,
    DebugEvent,
    SyncExtAbort,
    TlbConflictAbort,
    Lockdown,
    CoprocessorAbort,
    SyncParErrorOnMemAccess,
}

impl FsrStatus {
    /// The architectural 5-bit status code of each cause.
    pub open spec fn code(self) -> u8 {
        match self {
            FsrStatus::SyncExtAbortOnTranslationTableWalkFirstLevel => 0b01100,
            FsrStatus::SyncExtAbortOnTranslationTableWalkSecondLevel => 0b01110,
            FsrStatus::SyncParErrorOnTranslationTableWalkFirstLevel => 0b11100,
            FsrStatus::SyncParErrorOnTranslationTableWalkSecondLevel => 0b11110,
            FsrStatus::TranslationFaultFirstLevel => 0b00101,
            FsrStatus::TranslationFaultSecondLevel => 0b00111,
            FsrStatus::AccessFlagFaultFirstLevel => 0b00011,
            FsrStatus::AccessFlagFaultSecondLevel => 0b00110,
            FsrStatus::DomainFaultFirstLevel => 0b01001,
            FsrStatus::DomainFaultSecondLevel => 0b01011,
            FsrStatus::PermissionFaultFirstLevel => 0b01101,
            FsrStatus::PermissionFaultSecondLevel => 0b01111,
            FsrStatus::DebugEvent => 0b00010,
            FsrStatus::SyncExtAbort => 0b01000,
            FsrStatus::TlbConflictAbort => 0b10000,
            FsrStatus::Lockdown => 0b10100,
            FsrStatus::CoprocessorAbort => 0b11010,
            FsrStatus::SyncParErrorOnMemAccess => 0b11001,
        }
    }

    /// The cause whose code is `v`, if there is one.
    pub open spec fn decode(v: u8) -> Option<FsrStatus> {
        if v == 0b01100 {
            Some(FsrStatus::SyncExtAbortOnTranslationTableWalkFirstLevel)
        } else if v == 0b01110 {
            Some(FsrStatus::SyncExtAbortOnTranslationTableWalkSecondLevel)
        } else if v == 0b11100 {
            Some(FsrStatus::SyncParErrorOnTranslationTableWalkFirstLevel)
        } else if v == 0b11110 {
            Some(FsrStatus::SyncParErrorOnTranslationTableWalkSecondLevel)
        } else if v == 0b00101 {
            Some(FsrStatus::TranslationFaultFirstLevel)
        } else if v == 0b00111 {
            Some(FsrStatus::TranslationFaultSecondLevel)
        } else if v == 0b00011 {
            Some(FsrStatus::AccessFlagFaultFirstLevel)
        } else if v == 0b00110 {
            Some(FsrStatus::AccessFlagFaultSecondLevel)
        } else if v == 0b01001 {
            Some(FsrStatus::DomainFaultFirstLevel)
        } else if v == 0b01011 {
            Some(FsrStatus::DomainFaultSecondLevel)
        } else if v == 0b01101 {
            Some(FsrStatus::PermissionFaultFirstLevel)
        } else if v == 0b01111 {
            Some(FsrStatus::PermissionFaultSecondLevel)
        } else if v == 0b00010 {
            Some(FsrStatus::DebugEvent)
        } else if v == 0b01000 {
            Some(FsrStatus::SyncExtAbort)
        } else if v == 0b10000 {
            Some(FsrStatus::TlbConflictAbort)
        } else if v == 0b10100 {
            Some(FsrStatus::Lockdown)
        } else if v == 0b11010 {
            Some(FsrStatus::CoprocessorAbort)
        } else if v == 0b11001 {
            Some(FsrStatus::SyncParErrorOnMemAccess)
        } else {
            None
        }
    }

    /// The cause whose status code is `value`; a code that names no cause
    /// comes back unchanged as the error.
    pub fn try_from(value: u8) -> (r: Result<FsrStatus, u8>)
        ensures
            r == (match FsrStatus::decode(value) {
                Some(s) => Ok(s),
                None => Err(value),
            }),
    {
        match value {
            0b01100 => Ok(FsrStatus::SyncExtAbortOnTranslationTableWalkFirstLevel),
            0b01110 => Ok(FsrStatus::SyncExtAbortOnTranslationTableWalkSecondLevel),
            0b11100 => Ok(FsrStatus::SyncParErrorOnTranslationTableWalkFirstLevel),
            0b11110 => Ok(FsrStatus::SyncParErrorOnTranslationTableWalkSecondLevel),
            0b00101 => Ok(FsrStatus::TranslationFaultFirstLevel),
            0b00111 => Ok(FsrStatus::TranslationFaultSecondLevel),
            0b00011 => Ok(FsrStatus::AccessFlagFaultFirstLevel),
            0b00110 => Ok(FsrStatus::AccessFlagFaultSecondLevel),
            0b01001 => Ok(FsrStatus::DomainFaultFirstLevel),
            0b01011 => Ok(FsrStatus::DomainFaultSecondLevel),
            0b01101 => Ok(FsrStatus::PermissionFaultFirstLevel),
            0b01111 => Ok(FsrStatus::PermissionFaultSecondLevel),
            0b00010 => Ok(FsrStatus::DebugEvent),
            0b01000 => Ok(FsrStatus::SyncExtAbort),
            0b10000 => Ok(FsrStatus::TlbConflictAbort),
            0b10100 => Ok(FsrStatus::Lockdown),
            0b11010 => Ok(FsrStatus::CoprocessorAbort),
            0b11001 => Ok(FsrStatus::SyncParErrorOnMemAccess),
            _ => Err(value),
        }
    }

    /// The status code of this cause.
    pub fn to_code(self) -> (r: u8)
        ensures
            r == self.code(),
    {
        match self {
            FsrStatus::SyncExtAbortOnTranslationTableWalkFirstLevel => 0b01100,
            FsrStatus::SyncExtAbortOnTranslationTableWalkSecondLevel => 0b01110,
            FsrStatus::SyncParErrorOnTranslationTableWalkFirstLevel => 0b11100,
            FsrStatus::SyncParErrorOnTranslationTableWalkSecondLevel => 0b11110,
            FsrStatus::TranslationFaultFirstLevel => 0b00101,
            FsrStatus::TranslationFaultSecondLevel => 0b00111,
            FsrStatus::AccessFlagFaultFirstLevel => 0b00011,
            FsrStatus::AccessFlagFaultSecondLevel => 0b00110,
            FsrStatus::DomainFaultFirstLevel => 0b01001,
            FsrStatus::DomainFaultSecondLevel => 0b01011,
            FsrStatus::PermissionFaultFirstLevel => 0b01101,
            FsrStatus::PermissionFaultSecondLevel => 0b01111,
            FsrStatus::DebugEvent => 0b00010,
            FsrStatus::SyncExtAbort => 0b01000,
            FsrStatus::TlbConflictAbort => 0b10000,
            FsrStatus::Lockdown => 0b10100,
            FsrStatus::CoprocessorAbort => 0b11010,
            FsrStatus::SyncParErrorOnMemAccess => 0b11001,
        }
    }
}

/// Decoding is exact: every cause's code is a 5-bit value that decodes to
/// that cause and to no other, and a value that decodes to a cause is that
/// cause's code.
pub proof fn lemma_fsr_decode_exact(s: FsrStatus, v: u8)
    ensures
        s.code() < 32,
        FsrStatus::decode(s.code()) == Some(s),
        FsrStatus::decode(v) == Some(s) <==> v == s.code(),
        FsrStatus::decode(v) is Some ==> v < 32,
{
}

/// The 5-bit status field of a fault status register word: bits 0 to 3,
/// with bit 10 as its top bit.
pub open spec fn status_bits(raw: u32) -> u8 {
    ((raw & 0xf) | (((raw >> 10) & 1) << 4)) as u8
}

/// Reads the 5-bit status field of a fault status register word.
pub fn read_status_bits(raw: u32) -> (r: u8)
    ensures
        r == status_bits(raw),
        r < 32,
{
    let low = extract_u4(raw, 0);
    let high: u8 = ((raw >> 10) & 1) as u8;
    assert(nibble_at(raw, 0) == (raw & 0xf) as u8) by (bit_vector);
    assert(((raw & 0xf) | (((raw >> 10) & 1) << 4)) < 32) by (bit_vector);
    assert((((raw & 0xf) as u8) | ((((raw >> 10) & 1) as u8) << 4u8)) as u32
        == ((raw & 0xf) | (((raw >> 10) & 1) << 4))) by (bit_vector);
    low | (high << 4u8)
}

/// `raw` with its 5-bit status field replaced by `s`.
pub open spec fn with_status_bits(raw: u32, s: u8) -> u32 {
    (raw & !0x40fu32) | ((s as u32) & 0xf) | ((((s as u32) >> 4) & 1) << 10)
}

/// Replaces the 5-bit status field of a register word.
pub fn write_status_bits(raw: u32, s: u8) -> (r: u32)
    requires
        s < 32,
    ensures
        r == with_status_bits(raw, s),
        status_bits(r) == s,
        nibble_at(r, 4) == nibble_at(raw, 4),
        forall|m: u32| 11 <= m < 32 ==> bit_at(r, m) == bit_at(raw, m),
{
    let r = (raw & !0x40fu32) | ((s as u32) & 0xf) | ((((s as u32) >> 4) & 1) << 10);
    let s32 = s as u32;
    assert(s32 < 32 ==> (((r & 0xf) | (((r >> 10) & 1) << 4)) as u8) == s32 as u8) by (bit_vector)
        requires r == (raw & !0x40fu32) | (s32 & 0xf) | (((s32 >> 4) & 1) << 10);
    assert((((r >> 4) & 0xf) as u8) == (((raw >> 4) & 0xf) as u8)) by (bit_vector)
        requires r == (raw & !0x40fu32) | (s32 & 0xf) | (((s32 >> 4) & 1) << 10);
    assert forall|m: u32| 11 <= m < 32 implies bit_at(r, m) == bit_at(raw, m) by {
        assert((r >> m) & 1 == (raw >> m) & 1) by (bit_vector)
            requires r == (raw & !0x40fu32) | (s32 & 0xf) | (((s32 >> 4) & 1) << 10), s32 < 32, 11 <= m < 32;
    }
    r
}

/// `raw` with its domain field (bits 4 to 7) replaced by `d`.
pub open spec fn with_domain_bits(raw: u32, d: u8) -> u32 {
    (raw & !0xf0u32) | (((d as u32) & 0xf) << 4)
}

/// Replaces the domain field (bits 4 to 7) of a register word.
pub fn write_domain_bits(raw: u32, d: u8) -> (r: u32)
    requires
        d < 16,
    ensures
        r == with_domain_bits(raw, d),
        nibble_at(r, 4) == d,
        status_bits(r) == status_bits(raw),
        forall|m: u32| 8 <= m < 32 ==> bit_at(r, m) == bit_at(raw, m),
{
    let d32 = d as u32;
    let r = (raw & !0xf0u32) | ((d32 & 0xf) << 4);
    assert(d32 < 16 ==> (((r >> 4) & 0xf) as u8) == d32 as u8) by (bit_vector)
        requires r == (raw & !0xf0u32) | ((d32 & 0xf) << 4);
    assert(((r & 0xf) | (((r >> 10) & 1) << 4)) == ((raw & 0xf) | (((raw >> 10) & 1) << 4))) by (bit_vector)
        requires r == (raw & !0xf0u32) | ((d32 & 0xf) << 4);
    assert forall|m: u32| 8 <= m < 32 implies bit_at(r, m) == bit_at(raw, m) by {
        assert((r >> m) & 1 == (raw >> m) & 1) by (bit_vector)
            requires r == (raw & !0xf0u32) | ((d32 & 0xf) << 4), 8 <= m < 32;
    }
    r
}

/// Writing a bit above bit 10 leaves the domain and status fields alone.
pub proof fn lemma_high_bit_keeps_fields(raw: u32, n: u32, v: bool)
    requires
        11 <= n < 32,
    ensures
        nibble_at(with_bit(raw, n, v), 4) == nibble_at(raw, 4),
        status_bits(with_bit(raw, n, v)) == status_bits(raw),
{
    if v {
        assert((((raw | (1u32 << n)) >> 4) & 0xf) == ((raw >> 4) & 0xf)) by (bit_vector)
            requires 11 <= n < 32;
        assert((((raw | (1u32 << n)) & 0xf) | ((((raw | (1u32 << n)) >> 10) & 1) << 4))
            == ((raw & 0xf) | (((raw >> 10) & 1) << 4))) by (bit_vector)
            requires 11 <= n < 32;
    } else {
        assert((((raw & !(1u32 << n)) >> 4) & 0xf) == ((raw >> 4) & 0xf)) by (bit_vector)
            requires 11 <= n < 32;
        assert((((raw & !(1u32 << n)) & 0xf) | ((((raw & !(1u32 << n)) >> 10) & 1) << 4))
            == ((raw & 0xf) | (((raw >> 10) & 1) << 4))) by (bit_vector)
            requires 11 <= n < 32;
    }
}

/// IFSR (*Instruction Fault Status Register*) value.
#[derive(Debug, Clone, Copy, PartialEq, Eq, Structural)]
pub struct Ifsr {
    pub raw: u32,
}

impl Ifsr {
    /// The register word.
    pub open spec fn bits(self) -> u32 {
        self.raw
    }

    /// External abort qualifier (bit 12).
    pub open spec fn spec_ext(self) -> bool {
        bit_at(self.raw, 12)
    }

    /// Domain (bits 4 to 7).
    pub open spec fn spec_domain(self) -> u8 {
        nibble_at(self.raw, 4)
    }

    /// Status code (bits 0 to 3 and bit 10).
    pub open spec fn spec_status_raw(self) -> u8 {
        status_bits(self.raw)
    }

    /// Reads IFSR (*Instruction Fault Status Register*) from the register word.
    pub fn read(reg: &u32) -> (r: Ifsr)
        ensures
            r.bits() == *reg,
    {
        Ifsr { raw: *reg }
    }

    /// Writes IFSR (*Instruction Fault Status Register*) to the register word.
    pub fn write(reg: &mut u32, value: Ifsr)
        ensures
            *final(reg) == value.bits(),
    {
        *reg = value.raw;
    }

    pub fn new_with_raw_value(raw: u32) -> (r: Ifsr)
        ensures
            r.bits() == raw,
    {
        Ifsr { raw }
    }

    pub fn raw_value(&self) -> (r: u32)
        ensures
            r == self.bits(),
    {
        self.raw
    }

    pub fn ext(&self) -> (r: bool)
        ensures
            r == self.spec_ext(),
    {
        read_bit(self.raw, 12)
    }

    pub fn domain(&self) -> (r: u8)
        ensures
            r == self.spec_domain(),
            r < 16,
    {
        let raw = self.raw;
        assert(((raw >> 4usize) & 0xf) < 16) by (bit_vector);
        extract_u4(raw, 4)
    }

    pub fn status_raw(&self) -> (r: u8)
        ensures
            r == self.spec_status_raw(),
            r < 32,
    {
        read_status_bits(self.raw)
    }

    /// The fault cause that the status field names, or the field itself
    /// where it names none.
    pub fn status(&self) -> (r: Result<FsrStatus, u8>)
        ensures
            r == (match FsrStatus::decode(self.spec_status_raw()) {
                Some(s) => Ok(s),
                None => Err(self.spec_status_raw()),
            }),
    {
        let status = self.status_raw();
        FsrStatus::try_from(status)
    }

    pub fn with_ext(self, v: bool) -> (r: Ifsr)
        ensures
            r.bits() == with_bit(self.bits(), 12, v),
            r.spec_ext() == v,
            r.spec_domain() == self.spec_domain(),
            r.spec_status_raw() == self.spec_status_raw(),
    {
        proof {
            lemma_high_bit_keeps_fields(self.raw, 12, v);
        }
        Ifsr { raw: write_bit(self.raw, 12, v) }
    }

    pub fn with_domain(self, d: u8) -> (r: Ifsr)
        requires
            d < 16,
        ensures
            r.bits() == with_domain_bits(self.bits(), d),
            r.spec_domain() == d,
            r.spec_ext() == self.spec_ext(),
            r.spec_status_raw() == self.spec_status_raw(),
    {
        Ifsr { raw: write_domain_bits(self.raw, d) }
    }

    pub fn with_status_raw(self, s: u8) -> (r: Ifsr)
        requires
            s < 32,
        ensures
            r.bits() == with_status_bits(self.bits(), s),
            r.spec_status_raw() == s,
            r.spec_ext() == self.spec_ext(),
            r.spec_domain() == self.spec_domain(),
    {
        Ifsr { raw: write_status_bits(self.raw, s) }
    }
}

} // verus!
