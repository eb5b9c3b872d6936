use yudian_ai_tool::backend::mock::MockBackend;
use yudian_ai_tool::backend::mode::BackendMode;
use yudian_ai_tool::error::AppError;
use yudian_ai_tool::modbus::registers;
use yudian_ai_tool::types::ConnectionConfig;

fn mock_connection() -> ConnectionConfig {
    ConnectionConfig {
        port: "MOCK".to_string(),
        slave_addr: 1,
        baudrate: 9600,
    }
}

#[test]
fn mock_registers_read_back_what_was_written() {
    let mut mock = MockBackend::normal();
    mock.connect(&mock_connection()).unwrap();
    assert_eq!(
        mock.read_registers(registers::PV, 3).unwrap(),
        vec![1005, 1000, 12800]
    );
    assert_eq!(mock.read_registers(registers::MODEL, 1).unwrap(), vec![5167]);
    mock.write_register(registers::SP1, 1234).unwrap();
    assert_eq!(mock.read_registers(registers::SP1, 1).unwrap(), vec![1234]);
    // A register never written reads as zero.
    assert_eq!(mock.read_registers(0x300, 2).unwrap(), vec![0, 0]);
    assert_eq!(mock.read_registers(0xFFFF, 1).unwrap(), vec![0]);
}

#[test]
fn mock_refuses_access_until_connected_and_when_offline() {
    let mut mock = MockBackend::normal();
    assert!(matches!(
        mock.read_registers(registers::PV, 1),
        Err(AppError::NotConnected)
    ));
    assert!(matches!(
        mock.write_register(registers::SP1, 1),
        Err(AppError::NotConnected)
    ));
    mock.connect(&mock_connection()).unwrap();
    mock.disconnect().unwrap();
    assert!(matches!(
        mock.read_registers(registers::PV, 1),
        Err(AppError::NotConnected)
    ));

    let mut offline = MockBackend::offline();
    offline.connect(&mock_connection()).unwrap();
    assert!(matches!(
        offline.read_registers(registers::MODEL, 1),
        Err(AppError::Timeout)
    ));
    assert!(matches!(
        offline.write_register(registers::SP1, 1),
        Err(AppError::Timeout)
    ));
}

#[test]
fn backend_setting_selects_the_mock_case_insensitively() {
    assert_eq!(BackendMode::from_setting(None), BackendMode::Real);
    assert_eq!(BackendMode::from_setting(Some("mock")), BackendMode::Mock);
    assert_eq!(BackendMode::from_setting(Some("MoCk")), BackendMode::Mock);
    assert_eq!(
        BackendMode::from_setting(Some("MOCK-OFFLINE")),
        BackendMode::MockOffline
    );
    assert_eq!(BackendMode::from_setting(Some("mock ")), BackendMode::Real);
    assert_eq!(BackendMode::from_setting(Some("real")), BackendMode::Real);
    assert_eq!(BackendMode::from_setting(Some("")), BackendMode::Real);
    assert_eq!(BackendMode::from_setting(Some("möck")), BackendMode::Real);
}

#[test]
fn offline_backend_returns_structured_error() {
    // Connecting opens the link and then probes the MODEL register; on the
    // offline backend the probe times out, and that is what connect reports.
    let mut offline = MockBackend::offline();
    let err = offline
        .connect(&mock_connection())
        .and_then(|()| offline.read_registers(registers::MODEL, 1))
        .unwrap_err();
    assert!(matches!(err, AppError::Timeout));
}

#[test]
fn a_device_that_is_not_ready_answers_before_the_range_matters() {
    let mut mock = MockBackend::normal();
    assert!(matches!(
        mock.read_registers(0xFFFF, 2),
        Err(AppError::NotConnected)
    ));
    let mut offline = MockBackend::offline();
    offline.connect(&mock_connection()).unwrap();
    assert!(matches!(
        offline.read_registers(0xFFFF, 2),
        Err(AppError::Timeout)
    ));
}
