//! Phoenix Package Manager (PPM).
use vstd::prelude::*;
use vstd::string::StringExecFns;

verus! {

/// Represents a package.
#[derive(Debug)]
pub struct Package {
    /// Name of the package.
    pub name: String,
    /// Version of the package.
    pub version: String,
}

/// The packages installed with the base system: core-utils 1.0.0 and
/// shell-basic 0.1.0, in that order.
pub fn list() -> (v: Vec<Package>)
    ensures
        v@.len() == 2,
        v@[0].name@ == "core-utils"@,
        v@[0].version@ == "1.0.0"@,
        v@[1].name@ == "shell-basic"@,
        v@[1].version@ == "0.1.0"@,
{
    let mut v: Vec<Package> = Vec::new();
    v.push(Package { name: String::from_str("core-utils"), version: String::from_str("1.0.0") });
    v.push(Package { name: String::from_str("shell-basic"), version: String::from_str("0.1.0") });
    v
}

} // verus!
