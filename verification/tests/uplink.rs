use lorawan_node::config::{Config, ConfigError, Credentials};
use lorawan_node::join::{JoinCoordinator, JoinOutcome};
use lorawan_node::uplink::{SendOutcome, UplinkError, UplinkScheduler};

fn sample_credentials() -> Credentials {
    Credentials {
        dev_eui: [0x02, 0x4B, 0x00, 0xD8, 0x7E, 0xD5, 0xB3, 0x70],
        app_eui: [0; 8],
        app_key: [
            0x5F, 0xB7, 0xF2, 0xED, 0xD3, 0xF9, 0x66, 0x0F, 0xC0, 0x0B, 0xBE, 0x8F, 0xB9, 0xBE,
            0x29, 0x4A,
        ],
    }
}

fn joined_coordinator() -> JoinCoordinator {
    let mut coordinator = JoinCoordinator::new();
    coordinator.step_with_draw(JoinOutcome::Success, 0);
    coordinator
}

#[test]
fn default_configuration() {
    let config = Config::new(sample_credentials());
    assert_eq!(config.uplink_interval_secs(), 60);
    assert_eq!(config.max_payload_bytes(), 64);
    assert_eq!(config.application_port(), 1);
    assert_eq!(config.credentials(), sample_credentials());
}

#[test]
fn configuration_keeps_what_is_set() {
    let config = Config::new(sample_credentials())
        .with_uplink_interval(300)
        .with_max_payload(51)
        .with_application_port(10)
        .unwrap();
    assert_eq!(config.uplink_interval_secs(), 300);
    assert_eq!(config.max_payload_bytes(), 51);
    assert_eq!(config.application_port(), 10);
    assert_eq!(config.credentials(), sample_credentials());
}

#[test]
fn application_port_bounds() {
    let config = Config::new(sample_credentials());
    assert_eq!(config.with_application_port(1).unwrap().application_port(), 1);
    assert_eq!(config.with_application_port(223).unwrap().application_port(), 223);
    assert_eq!(
        config.with_application_port(0).unwrap_err(),
        ConfigError::PortOutOfRange { port: 0 }
    );
    assert_eq!(
        config.with_application_port(224).unwrap_err(),
        ConfigError::PortOutOfRange { port: 224 }
    );
    assert_eq!(
        config.with_application_port(255).unwrap_err(),
        ConfigError::PortOutOfRange { port: 255 }
    );
}

#[test]
fn no_scheduler_before_join() {
    let config = Config::new(sample_credentials());
    let mut coordinator = JoinCoordinator::new();
    assert!(UplinkScheduler::start(&config, &coordinator).is_none());
    coordinator.step_with_draw(JoinOutcome::Rejected, 2);
    assert!(UplinkScheduler::start(&config, &coordinator).is_none());
    coordinator.step_with_draw(JoinOutcome::Success, 0);
    assert!(UplinkScheduler::start(&config, &coordinator).is_some());
}

#[test]
fn scheduler_takes_over_the_configuration() {
    let config = Config::new(sample_credentials())
        .with_uplink_interval(120)
        .with_max_payload(32)
        .with_application_port(42)
        .unwrap();
    let scheduler = UplinkScheduler::start(&config, &joined_coordinator()).unwrap();
    assert_eq!(scheduler.interval_secs(), 120);
    assert_eq!(scheduler.max_payload_bytes(), 32);
    assert_eq!(scheduler.port(), 42);
}

#[test]
fn composed_message_is_unconfirmed_on_the_port() {
    let config = Config::new(sample_credentials());
    let scheduler = UplinkScheduler::start(&config, &joined_coordinator()).unwrap();
    let message = scheduler.compose(b"Hello from nRF52840!").unwrap();
    assert_eq!(message.payload(), b"Hello from nRF52840!");
    assert_eq!(message.payload().len(), 20);
    assert_eq!(message.port(), 1);
    assert!(!message.confirmed());
}

#[test]
fn payload_limit_is_inclusive() {
    let config = Config::new(sample_credentials());
    let scheduler = UplinkScheduler::start(&config, &joined_coordinator()).unwrap();
    let full = [0xA5u8; 64];
    let message = scheduler.compose(&full).unwrap();
    assert_eq!(message.payload(), &full[..]);
    let empty = scheduler.compose(&[]).unwrap();
    assert_eq!(empty.payload().len(), 0);
}

#[test]
fn payload_beyond_limit_is_refused() {
    let config = Config::new(sample_credentials());
    let scheduler = UplinkScheduler::start(&config, &joined_coordinator()).unwrap();
    let long = [0u8; 65];
    assert_eq!(
        scheduler.compose(&long).unwrap_err(),
        UplinkError::PayloadTooLong { len: 65, max: 64 }
    );
    let small = Config::new(sample_credentials()).with_max_payload(0);
    let scheduler = UplinkScheduler::start(&small, &joined_coordinator()).unwrap();
    assert_eq!(
        scheduler.compose(&[1]).unwrap_err(),
        UplinkError::PayloadTooLong { len: 1, max: 0 }
    );
    assert!(scheduler.compose(&[]).is_ok());
}

#[test]
fn pause_is_the_interval_whatever_the_outcome() {
    let config = Config::new(sample_credentials());
    let scheduler = UplinkScheduler::start(&config, &joined_coordinator()).unwrap();
    assert_eq!(scheduler.pause_after(SendOutcome::Sent), 60);
    assert_eq!(scheduler.pause_after(SendOutcome::TransportError { detail: 0 }), 60);
    assert_eq!(scheduler.pause_after(SendOutcome::TransportError { detail: 9 }), 60);
    let slow = config.with_uplink_interval(3600);
    let scheduler = UplinkScheduler::start(&slow, &joined_coordinator()).unwrap();
    assert_eq!(scheduler.pause_after(SendOutcome::Sent), 3600);
    assert_eq!(scheduler.pause_after(SendOutcome::TransportError { detail: 1 }), 3600);
}

#[test]
fn one_send_per_tick_despite_failures() {
    let config = Config::new(sample_credentials());
    let scheduler = UplinkScheduler::start(&config, &joined_coordinator()).unwrap();
    let outcomes = [
        SendOutcome::Sent,
        SendOutcome::TransportError { detail: 1 },
        SendOutcome::TransportError { detail: 2 },
        SendOutcome::Sent,
        SendOutcome::TransportError { detail: 3 },
    ];
    let mut sends: usize = 0;
    let mut clock: u64 = 0;
    let mut sent_at: Vec<u64> = Vec::new();
    for outcome in outcomes {
        let message = scheduler.compose(b"tick").unwrap();
        assert_eq!(message.payload(), b"tick");
        sends += 1;
        sent_at.push(clock);
        clock += scheduler.pause_after(outcome);
    }
    assert_eq!(sends, outcomes.len());
    assert_eq!(sent_at, vec![0, 60, 120, 180, 240]);
}
