use vstd::prelude::*;

use crate::address::valid_address;
use crate::errors::GpibControllerError;
use crate::gpib_controller::plan_result;
use crate::gpib_controller::send_plan;
use crate::gpib_controller::GpibController;
use crate::gpib_controller::Transmission;
use crate::hp606n_x::Hp606nX;

verus! {

/// The addresses of a sequence of devices.
pub open spec fn addresses(v: Seq<Hp606nX>) -> Seq<u8> {
    v.map_values(|d: Hp606nX| d@)
}

/// The devices known on one adapter's bus, in the order they were added.
/// Duplicates are kept: they are the caller's concern.
pub struct DeviceRegistry {
    devices: Vec<Hp606nX>,
}

impl View for DeviceRegistry {
    type V = Seq<u8>;

    closed spec fn view(&self) -> Seq<u8> {
        addresses(self.devices@)
    }
}

impl DeviceRegistry {
    /// A registry with no devices.
    pub fn new() -> (r: DeviceRegistry)
        ensures
            r@ == Seq::<u8>::empty(),
    {
        let r = DeviceRegistry { devices: Vec::new() };
        assert(r@ =~= Seq::<u8>::empty());
        r
    }

    /// Registers the device at `address` and returns it; an address the
    /// adapter does not accept is refused and leaves the registry as it was.
    pub fn add(&mut self, address: u8) -> (r: Result<Hp606nX, GpibControllerError>)
        ensures
            valid_address(address) ==> (r matches Ok(d) && d@ == address),
            valid_address(address) ==> final(self)@ == old(self)@.push(address),
            !valid_address(address) ==> r == Err::<Hp606nX, GpibControllerError>(
                GpibControllerError::InvalidAddress(address),
            ) && final(self)@ == old(self)@,
    {
        match Hp606nX::new(address) {
            Ok(d) => {
                let ghost before = self.devices@;
                self.devices.push(d);
                assert(addresses(self.devices@) =~= addresses(before).push(address));
                Ok(d)
            },
            Err(e) => Err(e),
        }
    }

    /// The devices registered so far, in insertion order; later additions do
    /// not show in the returned list.
    pub fn list(&self) -> (r: Vec<Hp606nX>)
        ensures
            addresses(r@) == self@,
    {
        let mut out: Vec<Hp606nX> = Vec::new();
        let mut i: usize = 0;
        while i < self.devices.len()
            invariant
                i <= self.devices@.len(),
                addresses(out@) == addresses(self.devices@.subrange(0, i as int)),
            decreases self.devices@.len() - i,
        {
            let d = self.devices[i];
            let ghost before = out@;
            out.push(d);
            assert(addresses(out@) =~= addresses(before).push(d@));
            assert(self.devices@.subrange(0, i + 1) =~= self.devices@.subrange(0, i as int).push(
                d,
            ));
            i = i + 1;
        }
        assert(self.devices@.subrange(0, i as int) =~= self.devices@);
        out
    }

    /// Whether a device at `address` was registered.
    pub fn contains(&self, address: u8) -> (r: bool)
        ensures
            r == self@.contains(address),
    {
        let mut i: usize = 0;
        while i < self.devices.len()
            invariant
                i <= self.devices@.len(),
                forall|k: int| 0 <= k < i ==> self.devices@[k]@ != address,
            decreases self.devices@.len() - i,
        {
            if self.devices[i].address() == address {
                assert(self@[i as int] == address);
                return true;
            }
            i = i + 1;
        }
        assert forall|k: int| 0 <= k < self@.len() implies self@[k] != address by {
            assert(self@[k] == self.devices@[k]@);
        }
        false
    }

    /// The writes that sending `command` to `device` takes on `controller`:
    /// those of sending it to the device's address, provided the device was
    /// registered here.
    pub fn send_to_device(
        &self,
        controller: &GpibController,
        device: Hp606nX,
        command: &str,
    ) -> (r: Result<Vec<Transmission>, GpibControllerError>)
        ensures
            self@.contains(device@) ==> plan_result(
                r,
                send_plan(controller.selected(), command@, device@),
            ),
            !self@.contains(device@) ==> r == Err::<Vec<Transmission>, GpibControllerError>(
                GpibControllerError::UnknownDevice(device@),
            ),
    {
        let address = device.address();
        if !self.contains(address) {
            return Err(GpibControllerError::UnknownDevice(address));
        }
        controller.gpib_send_to_addr(command, address)
    }
}

} // verus!
