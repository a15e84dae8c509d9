use cortex_ar::cntv_ctl::CntvCtl;
use cortex_ar::cpsr::{Cpsr, ProcessorMode};
use cortex_ar::dfsr::{Dfsr, DfsrStatus};
use cortex_ar::ifsr::{FsrStatus, Ifsr};

const ALL_FSR: [(u8, FsrStatus); 18] = [
    (0b01100, FsrStatus::SyncExtAbortOnTranslationTableWalkFirstLevel),
    (0b01110, FsrStatus::SyncExtAbortOnTranslationTableWalkSecondLevel),
    (0b11100, FsrStatus::SyncParErrorOnTranslationTableWalkFirstLevel),
    (0b11110, FsrStatus::SyncParErrorOnTranslationTableWalkSecondLevel),
    (0b00101, FsrStatus::TranslationFaultFirstLevel),
    (0b00111, FsrStatus::TranslationFaultSecondLevel),
    (0b00011, FsrStatus::AccessFlagFaultFirstLevel),
    (0b00110, FsrStatus::AccessFlagFaultSecondLevel),
    (0b01001, FsrStatus::DomainFaultFirstLevel),
    (0b01011, FsrStatus::DomainFaultSecondLevel),
    (0b01101, FsrStatus::PermissionFaultFirstLevel),
    (0b01111, FsrStatus::PermissionFaultSecondLevel),
    (0b00010, FsrStatus::DebugEvent),
    (0b01000, FsrStatus::SyncExtAbort),
    (0b10000, FsrStatus::TlbConflictAbort),
    (0b10100, FsrStatus::Lockdown),
    (0b11010, FsrStatus::CoprocessorAbort),
    (0b11001, FsrStatus::SyncParErrorOnMemAccess),
];

#[test]
fn fsr_every_code_decodes_to_its_cause() {
    for (code, cause) in ALL_FSR {
        assert_eq!(FsrStatus::try_from(code), Ok(cause));
        assert_eq!(cause.to_code(), code);
    }
}

#[test]
fn fsr_unknown_codes_are_reported_with_their_bits() {
    let known: Vec<u8> = ALL_FSR.iter().map(|p| p.0).collect();
    let mut unknown = 0;
    for code in 0u8..32 {
        if !known.contains(&code) {
            assert_eq!(FsrStatus::try_from(code), Err(code));
            unknown += 1;
        }
    }
    assert_eq!(unknown, 14);
    assert_eq!(FsrStatus::try_from(0), Err(0));
    assert_eq!(FsrStatus::try_from(0xff), Err(0xff));
}

#[test]
fn dfsr_own_codes_and_shared_codes() {
    assert_eq!(DfsrStatus::try_from(0b00001), Ok(DfsrStatus::AlignmentFault));
    assert_eq!(DfsrStatus::try_from(0b00100), Ok(DfsrStatus::FaultOnInstructionCacheMaintenance));
    assert_eq!(DfsrStatus::try_from(0b10110), Ok(DfsrStatus::AsyncExternalAbort));
    assert_eq!(DfsrStatus::try_from(0b11000), Ok(DfsrStatus::AsyncParityErrorOnMemAccess));
    assert_eq!(DfsrStatus::try_from(0b00101), Ok(DfsrStatus::CommonFsr(FsrStatus::TranslationFaultFirstLevel)));
    assert_eq!(DfsrStatus::try_from(0), Err(0));
    assert_eq!(DfsrStatus::try_from(0b11111), Err(0b11111));
}

#[test]
fn dfsr_fields_from_register_word() {
    // status 0b10110 (bit 10 set, low bits 0110), domain 0b1010, wnr, ext
    let raw: u32 = (1 << 12) | (1 << 11) | (1 << 10) | (0b1010 << 4) | 0b0110;
    let d = Dfsr::new_with_raw_value(raw);
    assert!(d.ext());
    assert!(d.wnr());
    assert_eq!(d.domain(), 0b1010);
    assert_eq!(d.status_raw(), 0b10110);
    assert_eq!(d.status(), Ok(DfsrStatus::AsyncExternalAbort));
    let e = Dfsr::new_with_raw_value(0);
    assert_eq!(e.status(), Err(0));
}

#[test]
fn dfsr_setters_keep_other_fields() {
    let d = Dfsr::new_with_raw_value(0)
        .with_status_raw(0b11000)
        .with_domain(0b0101)
        .with_wnr(true)
        .with_ext(false);
    assert_eq!(d.raw_value(), (1 << 11) | (1 << 10) | (0b0101 << 4) | 0b1000);
    assert_eq!(d.status(), Ok(DfsrStatus::AsyncParityErrorOnMemAccess));
    let d = d.with_wnr(false);
    assert_eq!(d.domain(), 0b0101);
    assert!(!d.wnr());
}

#[test]
fn ifsr_fields_and_status() {
    let raw: u32 = (1 << 12) | (0b0011 << 4) | 0b1101;
    let i = Ifsr::new_with_raw_value(raw);
    assert!(i.ext());
    assert_eq!(i.domain(), 0b0011);
    assert_eq!(i.status_raw(), 0b01101);
    assert_eq!(i.status(), Ok(FsrStatus::PermissionFaultFirstLevel));
    let j = i.with_status_raw(0b10001);
    assert_eq!(j.status(), Err(0b10001));
    assert_eq!(j.domain(), 0b0011);
    assert!(j.ext());
    assert_eq!(j.raw_value(), (1 << 12) | (1 << 10) | (0b0011 << 4) | 0b0001);
    let k = j.with_domain(0xf).with_ext(false);
    assert_eq!(k.raw_value(), (1 << 10) | (0xf << 4) | 0b0001);
}

#[test]
fn domain_reads_bits_four_to_seven_only() {
    let i = Ifsr::new_with_raw_value(0xffff_ff0f);
    assert_eq!(i.domain(), 0);
    let i = Ifsr::new_with_raw_value(0x0000_00f0);
    assert_eq!(i.domain(), 0xf);
    let d = Dfsr::new_with_raw_value(0x0000_0090);
    assert_eq!(d.domain(), 9);
}

#[test]
fn cpsr_fields_and_modes() {
    let c = Cpsr::new_with_raw_value(0x0000_01d3);
    assert_eq!(c.mode(), Ok(ProcessorMode::Svc));
    assert!(c.i());
    assert!(c.f());
    assert!(!c.t());
    let c = c.with_i(false).with_t(true).with_mode(ProcessorMode::Sys);
    assert_eq!(c.raw_value(), 0x0000_017f);
    assert_eq!(Cpsr::new_with_raw_value(0x15).mode(), Err(0x15));
    assert_eq!(ProcessorMode::Hyp.to_code(), 0b11010);
    assert_eq!(ProcessorMode::try_from(0b11011), Ok(ProcessorMode::Und));
}

#[test]
fn cntv_ctl_fields_and_modify() {
    let c = CntvCtl::new_with_raw_value(0b100);
    assert!(c.istatus());
    assert!(!c.imask());
    assert!(!c.enable());
    let mut reg: u32 = 0b100;
    CntvCtl::modify(&mut reg, |v| v.with_enable(true).with_imask(true));
    assert_eq!(reg, 0b111);
    let read = CntvCtl::read(&reg);
    assert!(read.enable() && read.imask());
    CntvCtl::write(&mut reg, CntvCtl::new_with_raw_value(0));
    assert_eq!(reg, 0);
}

#[test]
fn fault_status_read_write() {
    let mut reg: u32 = 0x1405;
    let d = Dfsr::read(&reg);
    assert_eq!(d.status(), Err(0b10101));
    Dfsr::write(&mut reg, d.with_status_raw(0b00001));
    assert_eq!(reg, 0x1001);
    let i = Ifsr::read(&reg);
    assert_eq!(i.status_raw(), 1);
    Ifsr::write(&mut reg, i.with_ext(false));
    assert_eq!(reg, 0x0001);
}
