use vstd::prelude::*;

use crate::address::is_valid_address;
use crate::address::valid_address;
use crate::errors::GpibControllerError;

verus! {

/// An Hp606nX device on the GPIB bus of the controller (the HP6060A, HP6060B,
/// HP6063 and their kin). It is a plain identifier: two devices are equal when
/// their addresses are.
#[derive(Debug, Clone, Copy, PartialEq, Eq)]
pub struct Hp606nX {
    /// The address this device lives at on the GPIB bus, shown by pressing
    /// `addr` on the front panel.
    addr: u8,
}

impl View for Hp606nX {
    type V = u8;

    closed spec fn view(&self) -> u8 {
        self.addr
    }
}

impl Hp606nX {
    #[verifier::type_invariant]
    spec fn inv(self) -> bool {
        valid_address(self.addr)
    }

    /// The device at `addr`, which must be an address the adapter accepts.
    pub fn new(addr: u8) -> (r: Result<Hp606nX, GpibControllerError>)
        ensures
            valid_address(addr) ==> (r matches Ok(d) && d@ == addr),
            !valid_address(addr) ==> r == Err::<Hp606nX, GpibControllerError>(
                GpibControllerError::InvalidAddress(addr),
            ),
    {
        if is_valid_address(addr) {
            Ok(Hp606nX { addr })
        } else {
            Err(GpibControllerError::InvalidAddress(addr))
        }
    }

    /// The device's GPIB address.
    pub fn address(&self) -> (r: u8)
        ensures
            r == self@,
            valid_address(r),
    {
        proof {
            use_type_invariant(self);
        }
        self.addr
    }
}

} // verus!
