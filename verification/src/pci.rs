use vstd::prelude::*;

verus! {

/// The configuration-space address port of the PCI bus.
pub const CONFIG_ADDRESS: u16 = 0xCF8;

/// The configuration-space data port of the PCI bus.
pub const CONFIG_DATA: u16 = 0xCFC;

/// Looks a vendor/device pair up in the identification table. The table is
/// not carried by this build, so no name is ever found.
pub fn idlookup(vendor: u16, dev: u16) -> (r: Option<String>)
    ensures
        r is None,
{
    None
}

} // verus!
