//! Classification of a byte count into the unit a report prints it with.

use vstd::prelude::*;

verus! {

pub const KIB: usize = 1024;
pub const MIB: usize = 1048576;
pub const GIB: usize = 1073741824;

/// The unit a byte count is reported in.
#[derive(Clone, Copy, Debug, PartialEq, Eq, Structural)]
pub enum SizeClass {
    Bytes,
    Kibi,
    Mebi,
    Gibi,
}

/// The unit that a report prints `bytes` with: plain bytes under 1024,
/// then kibibytes, mebibytes and gibibytes at each successive threshold.
pub open spec fn spec_size_class(bytes: int) -> SizeClass {
    if bytes < KIB {
        SizeClass::Bytes
    } else if bytes < MIB {
        SizeClass::Kibi
    } else if bytes < GIB {
        SizeClass::Mebi
    } else {
        SizeClass::Gibi
    }
}

/// Picks the unit a byte count is reported in.
pub fn size_class(bytes: usize) -> (c: SizeClass)
    ensures
        c == spec_size_class(bytes as int),
{
    if bytes < KIB {
        SizeClass::Bytes
    } else if bytes < MIB {
        SizeClass::Kibi
    } else if bytes < GIB {
        SizeClass::Mebi
    } else {
        SizeClass::Gibi
    }
}

} // verus!
