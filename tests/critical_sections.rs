use cortex_ar::cpsr::Cpsr;
use cortex_ar::critical_section::{
    AcquireStep, MultiCoreCriticalSection, SingleCoreCriticalSection, INT_OFF, INT_OFF_LOCKED,
    INT_OFF_UNLOCKED, INT_ON, INT_ON_UNLOCKED, UNLOCKED,
};

fn enabled() -> Cpsr {
    Cpsr::new_with_raw_value(0x1f)
}

fn disabled() -> Cpsr {
    Cpsr::new_with_raw_value(0x1f).with_i(true)
}

#[test]
fn single_core_restores_enabled() {
    let mut c = enabled();
    let token = SingleCoreCriticalSection::acquire(&mut c);
    assert_eq!(token, INT_ON);
    assert!(c.i());
    SingleCoreCriticalSection::release(&mut c, token);
    assert!(!c.i());
    assert_eq!(c, enabled());
}

#[test]
fn single_core_leaves_disabled() {
    let mut c = disabled();
    let token = SingleCoreCriticalSection::acquire(&mut c);
    assert_eq!(token, INT_OFF);
    SingleCoreCriticalSection::release(&mut c, token);
    assert!(c.i());
}

#[test]
fn single_core_nested() {
    let mut c = enabled();
    let outer = SingleCoreCriticalSection::acquire(&mut c);
    let inner = SingleCoreCriticalSection::acquire(&mut c);
    assert_eq!(inner, INT_OFF);
    SingleCoreCriticalSection::release(&mut c, inner);
    assert!(c.i());
    SingleCoreCriticalSection::release(&mut c, outer);
    assert!(!c.i());
}

#[test]
fn multi_core_nested_acquire_does_not_spin() {
    let mut c = enabled();
    let mut lock = UNLOCKED;
    let outer = MultiCoreCriticalSection::acquire(&mut c, &mut lock, 0);
    assert_eq!(outer, AcquireStep::Token(INT_ON_UNLOCKED));
    assert_eq!(lock, 0);
    let inner = MultiCoreCriticalSection::acquire(&mut c, &mut lock, 0);
    assert_eq!(inner, AcquireStep::Token(INT_OFF_LOCKED));
    let mut enables = 0;
    MultiCoreCriticalSection::release(&mut c, &mut lock, INT_OFF_LOCKED);
    if !c.i() {
        enables += 1;
    }
    assert_eq!(lock, 0);
    MultiCoreCriticalSection::release(&mut c, &mut lock, INT_ON_UNLOCKED);
    if !c.i() {
        enables += 1;
    }
    assert_eq!(enables, 1);
    assert_eq!(lock, UNLOCKED);
    assert_eq!(c, enabled());
}

#[test]
fn multi_core_other_core_spins() {
    let mut c0 = enabled();
    let mut c1 = enabled();
    let mut lock = UNLOCKED;
    let t0 = MultiCoreCriticalSection::acquire(&mut c0, &mut lock, 0);
    assert_eq!(t0, AcquireStep::Token(INT_ON_UNLOCKED));
    let t1 = MultiCoreCriticalSection::acquire(&mut c1, &mut lock, 1);
    assert_eq!(t1, AcquireStep::Spin(true));
    assert_eq!(lock, 0);
    assert!(c1.i());
    let t1 = MultiCoreCriticalSection::acquire_retry(&mut lock, 1, true);
    assert_eq!(t1, AcquireStep::Spin(true));
    MultiCoreCriticalSection::release(&mut c0, &mut lock, INT_ON_UNLOCKED);
    let t1 = MultiCoreCriticalSection::acquire_retry(&mut lock, 1, true);
    assert_eq!(t1, AcquireStep::Token(INT_ON_UNLOCKED));
    assert_eq!(lock, 1);
}

#[test]
fn multi_core_disabled_start() {
    let mut c = disabled();
    let mut lock = UNLOCKED;
    let t = MultiCoreCriticalSection::acquire(&mut c, &mut lock, 3);
    assert_eq!(t, AcquireStep::Token(INT_OFF_UNLOCKED));
    MultiCoreCriticalSection::release(&mut c, &mut lock, INT_OFF_UNLOCKED);
    assert_eq!(lock, UNLOCKED);
    assert!(c.i());
}

#[test]
fn multi_core_invalid_state() {
    let mut c = enabled();
    let mut lock: u32 = 2;
    let t = MultiCoreCriticalSection::acquire(&mut c, &mut lock, 2);
    assert_eq!(t, AcquireStep::InvalidState);
}

#[test]
fn multi_core_step_from_observed_word() {
    assert_eq!(MultiCoreCriticalSection::step(true, UNLOCKED, 4), AcquireStep::Token(INT_ON_UNLOCKED));
    assert_eq!(MultiCoreCriticalSection::step(false, UNLOCKED, 4), AcquireStep::Token(INT_OFF_UNLOCKED));
    assert_eq!(MultiCoreCriticalSection::step(false, 4, 4), AcquireStep::Token(INT_OFF_LOCKED));
    assert_eq!(MultiCoreCriticalSection::step(true, 4, 4), AcquireStep::InvalidState);
    assert_eq!(MultiCoreCriticalSection::step(false, 5, 4), AcquireStep::Spin(false));
}
