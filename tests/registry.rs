use gpib_lan::errors::GpibControllerError;
use gpib_lan::gpib_controller::GpibController;
use gpib_lan::hp606n_x::Hp606nX;
use gpib_lan::registry::DeviceRegistry;

#[test]
fn registry_keeps_insertion_order_and_routes_by_address() {
    let mut registry = DeviceRegistry::new();
    let first = registry.add(16).unwrap();
    let second = registry.add(17).unwrap();
    let listed: Vec<u8> = registry.list().iter().map(|d| d.address()).collect();
    assert_eq!(listed, vec![16, 17]);
    assert_eq!(second.address(), 17);

    let session = GpibController::with_address(3);
    let plan = registry.send_to_device(&session, first, "MEAS:VOLT?\n").unwrap();
    assert_eq!(plan.len(), 2);
    assert_eq!(plan[0].command(), "++addr 16\n");
    assert_eq!(plan[0].selects(), Some(16));
    assert_eq!(plan[1].command(), "MEAS:VOLT?\n");
}

#[test]
fn list_is_a_snapshot() {
    let mut registry = DeviceRegistry::new();
    registry.add(1).unwrap();
    let before = registry.list();
    registry.add(2).unwrap();
    assert_eq!(before.len(), 1);
    assert_eq!(registry.list().len(), 2);
}

#[test]
fn registry_refuses_invalid_addresses() {
    let mut registry = DeviceRegistry::new();
    assert_eq!(registry.add(31).err(), Some(GpibControllerError::InvalidAddress(31)));
    assert_eq!(registry.add(95).err(), Some(GpibControllerError::InvalidAddress(95)));
    assert_eq!(registry.add(127).err(), Some(GpibControllerError::InvalidAddress(127)));
    assert!(registry.list().is_empty());
    assert!(registry.add(0).is_ok());
    assert!(registry.add(96).is_ok());
    assert!(registry.add(126).is_ok());
}

#[test]
fn registry_keeps_duplicates() {
    let mut registry = DeviceRegistry::new();
    registry.add(5).unwrap();
    registry.add(5).unwrap();
    assert_eq!(registry.list().len(), 2);
}

#[test]
fn unknown_device_is_refused() {
    let mut registry = DeviceRegistry::new();
    registry.add(16).unwrap();
    let stranger = Hp606nX::new(4).unwrap();
    let session = GpibController::with_address(16);
    assert_eq!(
        registry.send_to_device(&session, stranger, "*RST\n").err(),
        Some(GpibControllerError::UnknownDevice(4))
    );
    assert!(!registry.contains(4));
    assert!(registry.contains(16));
}

#[test]
fn selected_device_gets_no_address_command() {
    let mut registry = DeviceRegistry::new();
    let device = registry.add(16).unwrap();
    let session = GpibController::with_address(16);
    let plan = registry.send_to_device(&session, device, "*IDN?\n").unwrap();
    assert_eq!(plan.len(), 1);
    assert_eq!(plan[0].command(), "*IDN?\n");
}

#[test]
fn devices_compare_by_address() {
    assert_eq!(Hp606nX::new(16).unwrap(), Hp606nX::new(16).unwrap());
    assert_ne!(Hp606nX::new(16).unwrap(), Hp606nX::new(17).unwrap());
    assert_eq!(Hp606nX::new(200).err(), Some(GpibControllerError::InvalidAddress(200)));
}
