use vstd::prelude::*;

verus! {

/// The address the controller reports before any address was selected.
pub const UNSET_ADDRESS: u8 = 255;

/// A GPIB address the adapter accepts: a primary address 0..=30, or 96..=126.
pub open spec fn valid_address(a: u8) -> bool {
    a <= 30 || (96 <= a && a <= 126)
}

/// Tells whether `a` is an address the adapter accepts.
pub fn is_valid_address(a: u8) -> (r: bool)
    ensures
        r == valid_address(a),
{
    a <= 30 || (96 <= a && a <= 126)
}

} // verus!
