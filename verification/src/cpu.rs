//! CPU identification: the vendor gate of the bring-up sequence.
//!
//! The vendor-identification instruction returns the vendor name in three
//! 32-bit fragments; only the first fragment is examined.  The machine-facing
//! shell issues the instruction and hands the fragment to this module, which
//! decides whether the processor is supported.

use vstd::prelude::*;

verus! {

/// First 32-bit fragment of the vendor name returned by an Intel processor.
pub const INTEL_VENDOR: u32 = 0x756E6547;

/// Whether the processor that returned `vendor_fragment` is supported.
/// Only Intel processors are: the caller must halt on any other vendor.
pub fn is_intel_cpu(vendor_fragment: u32) -> (supported: bool)
    ensures
        supported == (vendor_fragment == INTEL_VENDOR),
{
    vendor_fragment == INTEL_VENDOR
}

} // verus!
