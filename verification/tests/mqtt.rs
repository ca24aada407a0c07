use presence_link::config::Config;
use presence_link::mqtt::event_connectivity;
use presence_link::mqtt::Mqtt;
use presence_link::mqtt::MqttConnectionStatus;
use presence_link::mqtt::QoS;
use presence_link::mqtt::SessionError;
use presence_link::mqtt::KEEP_ALIVE_SECONDS;

fn broker_config() -> Config {
    Config {
        wifi_ssid: String::from("HomeNet"),
        wifi_password: String::from("correct horse"),
        wifi_auth_method: String::from("WPA2Personal"),
        wifi_start_tx_power: 8,
        wifi_max_tx_power: 20,
        wifi_disconnect_rssi: -80,
        wifi_disconnect_seconds: 4,
        wifi_ignore_rssi_seconds: 10,
        wifi_missing_rssi_is_weak: false,
        led_rssi_floor: -100,
        led_rssi_ceiling: -10,
        mqtt_host: String::from("broker.local"),
        mqtt_node: String::from("presence-node-1"),
        mqtt_user: String::from("node"),
        mqtt_pass: String::from("secret"),
        mqtt_discovery_prefix: String::from("homeassistant"),
        mqtt_on_payload: String::from("ON"),
        mqtt_off_payload: String::from("OFF"),
        mqtt_disconnected_timeout: 10,
        mqtt_reconnect_timeout: 300,
        mqtt_retry_session: false,
    }
}

#[test]
fn the_latch_starts_disconnected() {
    let mut status = MqttConnectionStatus::new();
    assert!(!status.is_connected);
    assert!(!status.was_connected);
    assert!(!status.was_connected());
    assert!(!status.was_connected());
}

#[test]
fn the_latch_shows_a_change_to_one_read_only() {
    let mut status = MqttConnectionStatus::new();
    status.set_connected(true);
    assert!(status.is_connected);
    assert!(!status.was_connected());
    assert!(status.was_connected());
    assert!(status.was_connected());
    status.set_connected(false);
    assert!(!status.is_connected);
    assert!(status.was_connected());
    assert!(!status.was_connected());
}

#[test]
fn the_latch_keeps_what_the_previous_read_found() {
    let mut status = MqttConnectionStatus::new();
    status.set_connected(true);
    assert!(!status.was_connected());
    // Down and up again between two reads: the previous read found the
    // session connected, and so does this one.
    status.set_connected(false);
    status.set_connected(true);
    assert_eq!(status, MqttConnectionStatus { is_connected: true, was_connected: true });
    assert!(status.was_connected());
    assert!(status.is_connected);
}

#[test]
fn a_repeated_report_does_not_hide_the_change() {
    let mut status = MqttConnectionStatus::new();
    assert!(!status.was_connected());
    status.set_connected(true);
    status.set_connected(true);
    assert_eq!(status, MqttConnectionStatus { is_connected: true, was_connected: false });
    assert!(!status.was_connected());
    assert!(status.is_connected);
    assert!(status.was_connected());

    status.set_connected(false);
    status.set_connected(false);
    status.set_connected(false);
    assert!(status.was_connected());
    assert!(!status.is_connected);
    assert!(!status.was_connected());
}

#[test]
fn reports_between_two_reads_count_by_the_last_one() {
    let mut status = MqttConnectionStatus::new();
    status.set_connected(true);
    status.set_connected(false);
    // Up and down again before any read: nothing has changed for the reader.
    assert_eq!(status, MqttConnectionStatus::new());
    assert!(!status.was_connected());
    status.set_connected(false);
    status.set_connected(true);
    assert!(!status.was_connected());
    assert!(status.is_connected);
}

#[test]
fn notifications_are_told_apart_by_their_first_word() {
    assert_eq!(event_connectivity("Connected"), Some(true));
    assert_eq!(event_connectivity("Connected(session: false)"), Some(true));
    assert_eq!(event_connectivity("Connected(true)"), Some(true));
    assert_eq!(event_connectivity("Disconnected"), Some(false));
    assert_eq!(event_connectivity("BeforeConnect"), None);
    assert_eq!(event_connectivity("Published(17)"), None);
    assert_eq!(event_connectivity("connected"), None);
    assert_eq!(event_connectivity(" Connected"), None);
    assert_eq!(event_connectivity("Connect"), None);
    assert_eq!(event_connectivity(""), None);
}

#[test]
fn a_new_session_knows_its_topic() {
    let session = Mqtt::new(&broker_config());
    assert_eq!(session.topic, "homeassistant/binary_sensor/presence-node-1/state");
    assert_eq!(session.on_payload, "ON");
    assert!(!session.has_client());
    assert!(!session.is_connected());
    assert_eq!(session.connection_status, MqttConnectionStatus::new());
}

#[test]
fn the_topic_takes_prefix_and_node_as_they_are() {
    let mut config = broker_config();
    config.mqtt_discovery_prefix = String::from("ha/test");
    config.mqtt_node = String::from("k\u{fc}che");
    let session = Mqtt::new(&config);
    assert_eq!(session.topic, "ha/test/binary_sensor/k\u{fc}che/state");
    config.mqtt_discovery_prefix = String::new();
    config.mqtt_node = String::new();
    assert_eq!(Mqtt::new(&config).topic, "/binary_sensor//state");
}

#[test]
fn the_client_is_created_with_a_last_will() {
    let config = broker_config();
    let session = Mqtt::new(&config);
    let request = session.create_client(&config);
    assert_eq!(request.broker_url, "mqtt://broker.local");
    assert_eq!(request.username, "node");
    assert_eq!(request.password, "secret");
    assert_eq!(request.client_id, "presence-node-1");
    assert_eq!(KEEP_ALIVE_SECONDS, 15);
    assert_eq!(request.keep_alive_seconds, 15);
    assert_eq!(request.lwt_topic, "homeassistant/binary_sensor/presence-node-1/state");
    assert_eq!(request.lwt_qos, QoS::AtLeastOnce);
    assert!(!request.lwt_retain);
    assert_eq!(request.lwt_payload, vec![b'O', b'F', b'F']);
    // Asking for the request creates nothing.
    assert!(!session.has_client());
}

#[test]
fn publishing_needs_a_client() {
    let mut session = Mqtt::new(&broker_config());
    assert_eq!(session.publish().err(), Some(SessionError::ClientNotInitialized));
    assert_eq!(session.announce().err(), Some(SessionError::ClientNotInitialized));
    session.client_created();
    assert!(session.has_client());
    let message = session.publish().expect("a client is present");
    assert_eq!(message.topic, "homeassistant/binary_sensor/presence-node-1/state");
    assert_eq!(message.qos, QoS::AtLeastOnce);
    assert!(!message.retain);
    assert_eq!(message.payload, vec![b'O', b'N']);
}

#[test]
fn the_payload_goes_out_as_utf8() {
    let mut config = broker_config();
    config.mqtt_on_payload = String::from("d\u{e9}j\u{e0}");
    let mut session = Mqtt::new(&config);
    session.client_created();
    let message = session.publish().expect("a client is present");
    assert_eq!(message.payload, vec![b'd', 0xc3, 0xa9, b'j', 0xc3, 0xa0]);
}

#[test]
fn an_announcement_is_skipped_once_the_session_has_dropped() {
    let mut session = Mqtt::new(&broker_config());
    session.client_created();
    assert!(matches!(session.announce(), Ok(None)));
    session.handle_event("Connected(session: false)");
    let message = session.announce().expect("a client is present").expect("connected");
    assert_eq!(message.payload, vec![b'O', b'N']);
    session.handle_event("Disconnected");
    assert!(matches!(session.announce(), Ok(None)));
}

#[test]
fn notifications_move_the_session_latch() {
    let mut session = Mqtt::new(&broker_config());
    session.handle_event("BeforeConnect");
    assert_eq!(session.connection_status, MqttConnectionStatus::new());
    session.handle_event("Connected(session: false)");
    session.handle_event("Connected(session: true)");
    assert!(session.is_connected());
    assert!(!session.was_connected());
    assert!(session.was_connected());
    session.handle_event("Published(3)");
    assert!(session.is_connected());
    assert!(session.was_connected());
    session.handle_event("Disconnected");
    assert!(!session.is_connected());
    assert!(session.was_connected());
    assert!(!session.was_connected());
    assert_eq!(session.topic, "homeassistant/binary_sensor/presence-node-1/state");
}
