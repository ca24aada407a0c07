use presence_link::config::Config;
use presence_link::signal::judge_signal;
use presence_link::signal::SignalVerdict;

fn signal_config() -> Config {
    Config {
        wifi_ssid: String::from("HomeNet"),
        wifi_password: String::from("correct horse"),
        wifi_auth_method: String::from("WPA2Personal"),
        wifi_start_tx_power: 8,
        wifi_max_tx_power: 20,
        wifi_disconnect_rssi: -80,
        wifi_disconnect_seconds: 4,
        wifi_ignore_rssi_seconds: 10,
        wifi_missing_rssi_is_weak: false,
        led_rssi_floor: -100,
        led_rssi_ceiling: -10,
        mqtt_host: String::from("broker.local"),
        mqtt_node: String::from("presence-node-1"),
        mqtt_user: String::from("node"),
        mqtt_pass: String::from("secret"),
        mqtt_discovery_prefix: String::from("homeassistant"),
        mqtt_on_payload: String::from("ON"),
        mqtt_off_payload: String::from("OFF"),
        mqtt_disconnected_timeout: 10,
        mqtt_reconnect_timeout: 300,
        mqtt_retry_session: false,
    }
}

#[test]
fn a_signal_at_the_threshold_is_good() {
    let config = signal_config();
    assert_eq!(judge_signal(&config, Some(0), None, 100, Some(-80)), (None, SignalVerdict::Good));
    assert_eq!(judge_signal(&config, Some(0), None, 100, Some(-30)), (None, SignalVerdict::Good));
    assert_eq!(
        judge_signal(&config, Some(0), None, 100, Some(-81)),
        (Some(100), SignalVerdict::Weak)
    );
}

#[test]
fn a_good_sample_ends_the_weak_spell() {
    let config = signal_config();
    assert_eq!(
        judge_signal(&config, Some(0), Some(98), 100, Some(-80)),
        (None, SignalVerdict::Good)
    );
    // Even on a link that is still settling.
    assert_eq!(
        judge_signal(&config, Some(95), Some(90), 100, Some(-50)),
        (None, SignalVerdict::Good)
    );
}

#[test]
fn a_young_link_is_not_judged() {
    let config = signal_config();
    for now in 50..60 {
        assert_eq!(
            judge_signal(&config, Some(50), None, now, Some(-95)),
            (None, SignalVerdict::Settling)
        );
    }
    assert_eq!(
        judge_signal(&config, Some(50), None, 60, Some(-95)),
        (Some(60), SignalVerdict::Weak)
    );
}

#[test]
fn a_link_of_unknown_age_is_judged_at_once() {
    let config = signal_config();
    assert_eq!(judge_signal(&config, None, None, 3, Some(-95)), (Some(3), SignalVerdict::Weak));
}

#[test]
fn a_weak_spell_must_last() {
    let config = signal_config();
    assert_eq!(
        judge_signal(&config, Some(0), Some(100), 101, Some(-95)),
        (Some(100), SignalVerdict::Weak)
    );
    assert_eq!(
        judge_signal(&config, Some(0), Some(100), 103, Some(-95)),
        (Some(100), SignalVerdict::Weak)
    );
    assert_eq!(
        judge_signal(&config, Some(0), Some(100), 104, Some(-95)),
        (None, SignalVerdict::GiveUp)
    );
    assert_eq!(
        judge_signal(&config, Some(0), Some(100), 500, Some(-95)),
        (None, SignalVerdict::GiveUp)
    );
}

#[test]
fn a_weak_time_of_zero_gives_up_at_once() {
    let mut config = signal_config();
    config.wifi_disconnect_seconds = 0;
    assert_eq!(judge_signal(&config, Some(0), None, 100, Some(-95)), (None, SignalVerdict::GiveUp));
}

#[test]
fn a_missing_reading_follows_the_policy() {
    let mut config = signal_config();
    assert_eq!(judge_signal(&config, Some(0), Some(99), 100, None), (None, SignalVerdict::Good));
    config.wifi_missing_rssi_is_weak = true;
    assert_eq!(judge_signal(&config, Some(0), None, 100, None), (Some(100), SignalVerdict::Weak));
    assert_eq!(
        judge_signal(&config, Some(0), Some(96), 100, None),
        (None, SignalVerdict::GiveUp)
    );
}

#[test]
fn a_clock_that_steps_back_counts_as_no_time_passed() {
    let config = signal_config();
    // The link came up "after" now: no time has passed, so it is settling.
    assert_eq!(
        judge_signal(&config, Some(200), None, 100, Some(-95)),
        (None, SignalVerdict::Settling)
    );
    // The weak spell began "after" now: it has lasted no time.
    assert_eq!(
        judge_signal(&config, Some(0), Some(200), 100, Some(-95)),
        (Some(200), SignalVerdict::Weak)
    );
}

#[test]
fn weak_from_link_up_gives_up_after_settling_plus_weak_time() {
    let config = signal_config();
    let link_up = 1_000;
    let mut spell = None;
    let mut gave_up_at = Vec::new();
    for now in link_up..=link_up + 14 {
        let (next, verdict) = judge_signal(&config, Some(link_up), spell, now, Some(-95));
        if verdict == SignalVerdict::GiveUp {
            gave_up_at.push(now);
        }
        spell = next;
    }
    assert_eq!(gave_up_at, vec![link_up + 10 + 4]);
}

#[test]
fn one_strong_sample_restarts_the_count() {
    let config = signal_config();
    let samples = [-95, -95, -95, -70, -95, -95, -95];
    let mut spell = None;
    let mut now = 500;
    for rssi in samples {
        let (next, verdict) = judge_signal(&config, Some(0), spell, now, Some(rssi));
        assert_ne!(verdict, SignalVerdict::GiveUp);
        spell = next;
        now += 1;
    }
    assert_eq!(spell, Some(504));
}
