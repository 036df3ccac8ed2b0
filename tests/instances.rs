use emulator_pool::emulator::{
    Emulator, EmulatorConfig, EmulatorError, EmulatorManager, InstanceState,
};
use emulator_pool::ports::PortError;
use emulator_pool::process::{CommandLine, ProcessOutcome, ProcessOutput};

fn args_of(c: &CommandLine) -> Vec<&str> {
    c.args.iter().map(|a| a.as_str()).collect()
}

fn finished(success: bool, stdout: &str, stderr: &str) -> ProcessOutcome {
    ProcessOutcome::Finished(ProcessOutput {
        success,
        stdout: stdout.as_bytes().to_vec(),
        stderr: stderr.as_bytes().to_vec(),
    })
}

fn record(name: &str, console_port: u16, adb_port: u16) -> EmulatorConfig {
    EmulatorConfig {
        name: name.to_string(),
        console_port,
        adb_port,
        created_at: "2024-01-01T00:00:00+00:00".to_string(),
        updated_at: "2024-01-01T00:00:00+00:00".to_string(),
    }
}

#[test]
fn test_emulator_manager() {
    let mut manager = EmulatorManager::new();

    let emu1 = manager.create_emulator("test_avd1".to_string()).unwrap();
    assert_eq!(emu1.name(), "test_avd1");
    assert_eq!(emu1.port(), 5554);
    assert_eq!(emu1.adb_port(), 5555);

    let emu2 = manager.create_emulator("test_avd2".to_string()).unwrap();
    assert_eq!(emu2.name(), "test_avd2");
    assert_eq!(emu2.port(), 5556);
    assert_eq!(emu2.adb_port(), 5557);
}

#[test]
fn test_emulator_creation() {
    let mut manager = EmulatorManager::new();
    let emu = manager.create_emulator("test_avd".to_string()).unwrap();
    assert_eq!(emu.name(), "test_avd");
}

#[test]
fn test_create_emulator() {
    let mut manager = EmulatorManager::new();
    let emu = manager.create_emulator("test_avd".to_string()).unwrap();
    let stored = emu.to_config_at("2024-01-01T00:00:00+00:00".to_string());
    assert_eq!(stored.name, "test_avd");
    assert_eq!(stored.console_port, 5554);
    assert_eq!(stored.adb_port, 5555);
    assert_eq!(stored.created_at, stored.updated_at);
}

#[test]
fn test_get_emulator_status() {
    let mut manager = EmulatorManager::new();
    let emulator = manager.create_emulator("test_avd".to_string()).unwrap();
    let found = manager.get_emulator(Some(record("test_avd", emulator.port(), emulator.adb_port()))).unwrap();
    assert_eq!(found.name(), "test_avd");
    assert_eq!(found.port(), emulator.port());
}

#[test]
fn test_nonexistent_emulator() {
    let manager = EmulatorManager::new();
    assert!(manager.get_emulator(None).is_none());
}

#[test]
fn stop_releases_ports_for_reuse() {
    let mut manager = EmulatorManager::new();
    let mut avd1 = manager.create_emulator("avd1".to_string()).unwrap();
    assert_eq!((avd1.port(), avd1.adb_port()), (5554, 5555));
    let avd2 = manager.create_emulator("avd2".to_string()).unwrap();
    assert_eq!((avd2.port(), avd2.adb_port()), (5556, 5557));

    let kill = avd1.kill_command();
    assert_eq!(kill.program, "adb");
    assert_eq!(args_of(&kill), vec!["-s", "emulator-5554", "emu", "kill"]);
    manager.finish_stop(&mut avd1, &finished(true, "", "")).unwrap();
    assert_eq!(avd1.state(), InstanceState::Stopped);
    assert_eq!(manager.get_ports("avd1"), None);

    let avd3 = manager.create_emulator("avd3".to_string()).unwrap();
    assert_eq!((avd3.port(), avd3.adb_port()), (5554, 5555));
}

#[test]
fn failed_stop_keeps_ports() {
    let mut manager = EmulatorManager::new();
    let mut avd = manager.create_emulator("avd".to_string()).unwrap();
    match manager.finish_stop(&mut avd, &finished(false, "", "error: no device")) {
        Err(EmulatorError::StopError(t)) => assert_eq!(t, "error: no device"),
        other => panic!("unexpected {:?}", other),
    }
    assert!(matches!(manager.finish_stop(&mut avd, &ProcessOutcome::TimedOut), Err(EmulatorError::Timeout)));
    assert_eq!(manager.get_ports("avd"), Some((5554, 5555)));
    assert_eq!(avd.state(), InstanceState::Created);
}

#[test]
fn app_control_needs_a_started_handle() {
    let mut manager = EmulatorManager::new();
    let created = manager.create_emulator("avd1".to_string()).unwrap();
    let rebuilt = manager.get_emulator(Some(record("avd1", created.port(), created.adb_port()))).unwrap();
    assert_eq!(rebuilt.state(), InstanceState::Created);
    assert!(matches!(rebuilt.app_manager(), Err(EmulatorError::NotStarted)));
    assert!(matches!(created.app_manager(), Err(EmulatorError::NotStarted)));
}

#[test]
fn start_attaches_controller() {
    let mut emu = Emulator::new("pixel".to_string(), 5560);
    let c = emu.start_command().unwrap();
    assert_eq!(c.program, "emulator");
    assert_eq!(args_of(&c), vec!["-avd", "pixel", "-port", "5560", "-no-window"]);
    emu.finish_start(&finished(true, "", "")).unwrap();
    assert_eq!(emu.state(), InstanceState::Running);
    assert_eq!(emu.app_manager().unwrap().device_id(), "emulator-5560");
    assert!(matches!(emu.start_command(), Err(EmulatorError::AlreadyRunning)));
}

#[test]
fn failed_start_leaves_ports_allocated() {
    let mut manager = EmulatorManager::new();
    let mut emu = manager.create_emulator("avd".to_string()).unwrap();
    match emu.finish_start(&finished(false, "", "PANIC: unknown AVD")) {
        Err(EmulatorError::StartError(t)) => assert_eq!(t, "PANIC: unknown AVD"),
        other => panic!("unexpected {:?}", other),
    }
    assert_eq!(emu.state(), InstanceState::Created);
    assert!(matches!(emu.app_manager(), Err(EmulatorError::NotStarted)));
    assert_eq!(manager.get_ports("avd"), Some((5554, 5555)));
    match emu.finish_start(&ProcessOutcome::SpawnFailed("not found".to_string())) {
        Err(EmulatorError::StartError(t)) => assert_eq!(t, "not found"),
        other => panic!("unexpected {:?}", other),
    }
    assert!(matches!(emu.finish_start(&ProcessOutcome::TimedOut), Err(EmulatorError::Timeout)));
}

#[test]
fn device_list_matches_serial_exactly() {
    let emu = Emulator::new("a".to_string(), 5554);
    let c = emu.status_command();
    assert_eq!(args_of(&c), vec!["devices"]);
    let listing = "List of devices attached\nemulator-5554\tdevice\n\n";
    assert_eq!(emu.is_running_result(&finished(true, listing, "")).unwrap(), true);
    let nbsp = "emulator-5554\u{a0}device";
    assert_eq!(emu.is_running_result(&finished(true, nbsp, "")).unwrap(), true);
    let other = "List of devices attached\nemulator-55540\tdevice\n";
    assert_eq!(emu.is_running_result(&finished(true, other, "")).unwrap(), false);
    assert_eq!(emu.is_running_result(&finished(true, "", "")).unwrap(), false);
    assert!(matches!(
        emu.is_running_result(&ProcessOutcome::SpawnFailed("x".to_string())),
        Err(EmulatorError::StatusCheckError(_))
    ));
}

#[test]
fn bridge_passthrough() {
    let emu = Emulator::new("a".to_string(), 5558);
    let c = emu.adb_command(&vec!["shell".to_string(), "getprop".to_string()]);
    assert_eq!(args_of(&c), vec!["-s", "emulator-5558", "shell", "getprop"]);
    assert_eq!(Emulator::adb_command_result(&finished(true, "out", "")).unwrap(), "out");
    match Emulator::adb_command_result(&finished(false, "", "bad")) {
        Err(EmulatorError::AdbError(t)) => assert_eq!(t, "bad"),
        other => panic!("unexpected {:?}", other),
    }
}

#[test]
fn records_rebuild_in_order() {
    let manager = EmulatorManager::new();
    let list = manager
        .list_emulators(vec![record("b", 5556, 5557), record("a", 5554, 5555)])
        .unwrap();
    assert_eq!(list.len(), 2);
    assert_eq!(list[0].name(), "b");
    assert_eq!(list[1].port(), 5554);
    assert!(list.iter().all(|e| e.state() == InstanceState::Created));
    assert!(manager.list_emulators(vec![]).unwrap().is_empty());
}

#[test]
fn invalid_records_are_refused() {
    let manager = EmulatorManager::new();
    match manager.list_emulators(vec![record("a", 5554, 5555), record("b", 5555, 5556)]) {
        Err(EmulatorError::PortError(e)) => assert_eq!(e, PortError::InvalidPort(5555)),
        other => panic!("unexpected {:?}", other.map(|v| v.len())),
    }
    match Emulator::from_config(record("c", 5554, 5600)) {
        Err(EmulatorError::PortError(e)) => assert_eq!(e, PortError::InvalidPort(5600)),
        other => panic!("unexpected {:?}", other),
    }
    assert!(manager.get_emulator(Some(record("d", 9001, 9002))).is_none());
}

#[test]
fn records_from_another_range_rebuild() {
    let manager = EmulatorManager::new();
    let e = manager.get_emulator(Some(record("d", 9000, 9001))).unwrap();
    assert_eq!((e.name(), e.port(), e.adb_port()), ("d", 9000, 9001));
    assert_eq!(e.state(), InstanceState::Created);
    assert!(matches!(e.app_manager(), Err(EmulatorError::NotStarted)));
    assert_eq!(manager.get_ports("d"), None);
    let list = manager
        .list_emulators(vec![record("far", 6000, 6001), record("near", 5554, 5555)])
        .unwrap();
    assert_eq!(list[0].port(), 6000);
    assert_eq!(list[1].name(), "near");
}

#[test]
fn exhausted_pool_reports_port_error() {
    let mut manager = EmulatorManager::new();
    for i in 0..16 {
        manager.create_emulator(format!("e{}", i)).unwrap();
    }
    assert!(matches!(
        manager.create_emulator("e16".to_string()),
        Err(EmulatorError::PortError(PortError::NoAvailablePorts))
    ));
}

#[test]
fn record_stamp_is_given_time() {
    let emu = Emulator::new("n".to_string(), 5584);
    let c = emu.to_config_at("2024-05-01T10:00:00+00:00".to_string());
    assert_eq!(c.name, "n");
    assert_eq!((c.console_port, c.adb_port), (5584, 5585));
    assert_eq!(c.created_at, "2024-05-01T10:00:00+00:00");
    assert_eq!(c.updated_at, "2024-05-01T10:00:00+00:00");
}
