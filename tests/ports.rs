use emulator_pool::ports::{PortError, PortManager, MAX_PORT, MIN_PORT};

#[test]
fn test_port_allocation() {
    let mut manager = PortManager::new();

    let (console_port, adb_port) = manager.allocate_ports("test_emu1").unwrap();
    assert_eq!(console_port, MIN_PORT);
    assert_eq!(adb_port, MIN_PORT + 1);

    let (console_port2, adb_port2) = manager.allocate_ports("test_emu2").unwrap();
    assert_eq!(console_port2, MIN_PORT + 2);
    assert_eq!(adb_port2, MIN_PORT + 3);

    manager.release_ports("test_emu1");
    let (console_port3, adb_port3) = manager.allocate_ports("test_emu3").unwrap();
    assert_eq!(console_port3, MIN_PORT);
    assert_eq!(adb_port3, MIN_PORT + 1);
}

#[test]
fn test_port_reuse() {
    let mut manager = PortManager::new();

    let ports1 = manager.allocate_ports("test_emu").unwrap();
    let ports2 = manager.allocate_ports("test_emu").unwrap();

    assert_eq!(ports1, ports2);
}

#[test]
fn distinct_names_get_disjoint_pairs() {
    let mut manager = PortManager::new();
    let (c1, b1) = manager.allocate_ports("alpha").unwrap();
    let (c2, b2) = manager.allocate_ports("beta").unwrap();
    assert_ne!(c1, c2);
    assert_ne!(c1, b2);
    assert_ne!(b1, c2);
    assert_ne!(b1, b2);
    for c in [c1, c2] {
        assert!(c >= MIN_PORT && c <= MAX_PORT);
        assert_eq!(c % 2, 0);
    }
    assert_eq!(b1, c1 + 1);
    assert_eq!(b2, c2 + 1);
}

#[test]
fn sixteen_slots_then_exhausted() {
    let mut manager = PortManager::new();
    for i in 0..16u16 {
        let name = format!("emu{}", i);
        let (console, bridge) = manager.allocate_ports(&name).unwrap();
        assert_eq!(console, 5554 + 2 * i);
        assert_eq!(bridge, 5555 + 2 * i);
    }
    assert_eq!(manager.allocate_ports("emu16"), Err(PortError::NoAvailablePorts));
    // A name that already holds a pair still gets it back.
    assert_eq!(manager.allocate_ports("emu15"), Ok((5584, 5585)));
    // After a release the freed port is handed out again.
    manager.release_ports("emu7");
    assert_eq!(manager.allocate_ports("emu16"), Ok((5568, 5569)));
}

#[test]
fn release_frees_lowest_slot_first() {
    let mut manager = PortManager::new();
    manager.allocate_ports("a").unwrap();
    manager.allocate_ports("b").unwrap();
    manager.allocate_ports("c").unwrap();
    manager.release_ports("c");
    manager.release_ports("a");
    assert_eq!(manager.allocate_ports("d"), Ok((5554, 5555)));
    assert_eq!(manager.allocate_ports("e"), Ok((5558, 5559)));
}

#[test]
fn release_of_unknown_name_is_a_no_op() {
    let mut manager = PortManager::new();
    manager.allocate_ports("kept").unwrap();
    manager.release_ports("missing");
    assert_eq!(manager.get_ports("kept"), Some((5554, 5555)));
}

#[test]
fn get_ports_reads_without_allocating() {
    let mut manager = PortManager::new();
    assert_eq!(manager.get_ports("x"), None);
    assert_eq!(manager.allocate_ports("x"), Ok((5554, 5555)));
    assert_eq!(manager.get_ports("x"), Some((5554, 5555)));
    assert_eq!(manager.get_ports("y"), None);
    assert_eq!(manager.allocate_ports("y"), Ok((5556, 5557)));
}

#[test]
fn validate_port_bounds_and_parity() {
    let manager = PortManager::new();
    assert_eq!(manager.validate_port(5555), Err(PortError::InvalidPort(5555)));
    assert_eq!(manager.validate_port(5586), Err(PortError::InvalidPort(5586)));
    assert_eq!(manager.validate_port(5552), Err(PortError::InvalidPort(5552)));
    assert_eq!(manager.validate_port(5554), Ok(()));
    assert_eq!(manager.validate_port(5584), Ok(()));
}

#[test]
fn port_in_use_follows_allocations() {
    let mut manager = PortManager::new();
    assert!(!manager.is_port_in_use(5554));
    manager.allocate_ports("a").unwrap();
    assert!(manager.is_port_in_use(5554));
    assert!(!manager.is_port_in_use(5555));
    assert!(!manager.is_port_in_use(5556));
    manager.release_ports("a");
    assert!(!manager.is_port_in_use(5554));
}
