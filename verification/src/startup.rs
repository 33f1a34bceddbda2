//! The decisions of the linear startup sequence.
//!
//! The startup sequence itself is plain machine-facing code: it queries the
//! processor, reads the boot-stage values, performs the writes the other
//! modules produce, and halts on a failed check.  The checks themselves are
//! decided here: the vendor gate first, then the exact-RAM requirement,
//! validated before the paging builder is ever invoked.

use vstd::prelude::*;

verus! {

/// RAM amount in bytes this kernel requires, exactly.
pub const REQUIRED_RAM_AMOUNT: u32 = 15360000;

/// Outcome of the pre-bring-up checks.
#[derive(Clone, Copy, PartialEq, Eq, Structural, Debug)]
pub enum StartupCheck {
    /// All checks passed; bring-up may proceed.
    Proceed,
    /// The processor's vendor is not supported: halt and report.
    UnsupportedCpu,
    /// The detected RAM amount is not the required one: halt and report.
    WrongRamAmount,
}

/// The decision the startup sequence must take, given whether the
/// processor is supported and the detected RAM amount in bytes.
pub open spec fn spec_startup_check(cpu_supported: bool, ram_bytes: u32) -> StartupCheck {
    if !cpu_supported {
        StartupCheck::UnsupportedCpu
    } else if ram_bytes != REQUIRED_RAM_AMOUNT {
        StartupCheck::WrongRamAmount
    } else {
        StartupCheck::Proceed
    }
}

/// Decides whether bring-up may proceed: the vendor gate comes first, then
/// the RAM amount must match the requirement exactly.  Any failure is fatal
/// to startup; the caller halts after reporting it.
pub fn startup_check(cpu_supported: bool, ram_bytes: u32) -> (check: StartupCheck)
    ensures
        check == spec_startup_check(cpu_supported, ram_bytes),
        check is Proceed <==> (cpu_supported && ram_bytes == REQUIRED_RAM_AMOUNT),
{
    if !cpu_supported {
        StartupCheck::UnsupportedCpu
    } else if ram_bytes != REQUIRED_RAM_AMOUNT {
        StartupCheck::WrongRamAmount
    } else {
        StartupCheck::Proceed
    }
}

} // verus!
