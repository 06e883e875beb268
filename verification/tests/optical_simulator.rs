use guibiao_backend::optical_simulator::{
    ConfigError, OpticalSimulatorService, SimulatorConfig, DEFAULT_SIMULATOR_CHANNEL_BUFFER,
};

#[test]
fn channel_buffer_read_from_service_section() {
    let c = SimulatorConfig::from_json_text(r#"{"service": {"simulator_channel_buffer": 512}}"#)
        .unwrap();
    assert_eq!(c.channel_buffer, 512);
}

#[test]
fn channel_buffer_defaults_when_absent_or_not_unsigned() {
    for text in [
        r#"{}"#,
        r#"{"service": {}}"#,
        r#"{"service": 3}"#,
        r#"{"service": {"simulator_channel_buffer": -5}}"#,
        r#"{"service": {"simulator_channel_buffer": 12.5}}"#,
        r#"{"service": {"simulator_channel_buffer": "64"}}"#,
        r#"[1, 2]"#,
    ] {
        let c = SimulatorConfig::from_json_text(text).unwrap();
        assert_eq!(c.channel_buffer, DEFAULT_SIMULATOR_CHANNEL_BUFFER, "{}", text);
    }
    assert_eq!(DEFAULT_SIMULATOR_CHANNEL_BUFFER, 256);
}

#[test]
fn invalid_json_is_refused() {
    match SimulatorConfig::from_json_text("{service: 1") {
        Err(ConfigError::InvalidJson(_)) => {}
        Ok(c) => panic!("accepted: {:?}", c),
    }
}

#[test]
fn simulator_config_default_is_zero() {
    assert_eq!(SimulatorConfig::default().channel_buffer, 0);
}

#[test]
fn service_keeps_store_and_simulator() {
    let svc = OpticalSimulatorService::new("store-handle".to_string(), (34.4897, 113.0875, 420.0));
    assert_eq!(svc.store(), "store-handle");
    assert_eq!(*svc.simulator(), (34.4897, 113.0875, 420.0));
}
