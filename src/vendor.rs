//! Names of the GPU vendors a device may report.
use vstd::prelude::*;

verus! {

/// The vendor's name for a PCI vendor id, or `Unknown`.
pub open spec fn vendor_of(vendor_id: u32) -> Seq<char> {
    if vendor_id == 0x10DE {
        "NVIDIA"@
    } else if vendor_id == 0x1002 {
        "AMD"@
    } else if vendor_id == 0x106B {
        "Apple"@
    } else if vendor_id == 0x8086 {
        "Intel"@
    } else if vendor_id == 0x13B5 {
        "ARM"@
    } else {
        "Unknown"@
    }
}

/// The name of the vendor with this PCI vendor id.
pub fn vendor_name(vendor_id: u32) -> (r: &'static str)
    ensures
        r@ == vendor_of(vendor_id),
{
    match vendor_id {
        0x10DE => "NVIDIA",
        0x1002 => "AMD",
        0x106B => "Apple",
        0x8086 => "Intel",
        0x13B5 => "ARM",
        _ => "Unknown",
    }
}

} // verus!
