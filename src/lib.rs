//! Verified model of a bare-metal runtime for Armv7-R/Armv8-R and Armv7-A
//! processors: the architectural registers it programs, the exception entry
//! and exit protocol, stack and section set-up at reset, the critical-section
//! primitives, and the rules applied to entry and handler functions.

pub mod bits;
pub mod cpsr;
pub mod ifsr;
pub mod dfsr;
pub mod cntv_ctl;
pub mod exception;
pub mod context;
pub mod trampoline;
pub mod critical_section;
pub mod startup;
pub mod attrs;
