use pianke::server::{
    health_interval_secs, health_step, home_navigation, is_update_menu_item, navigation_target,
    port_from_setting, probe_interval_millis, server_url, stale_port, startup_timeout_secs,
    unresponsive_message, wait_timed_out, wait_timeout_message,
};

#[test]
fn port_setting_is_parsed_or_defaulted() {
    assert_eq!(port_from_setting(None), 5057);
    assert_eq!(port_from_setting(Some("8080")), 8080);
    assert_eq!(port_from_setting(Some("+8081")), 8081);
    assert_eq!(port_from_setting(Some("65535")), 65535);
    assert_eq!(port_from_setting(Some("65536")), 5057);
    assert_eq!(port_from_setting(Some("-1")), 5057);
    assert_eq!(port_from_setting(Some(" 80")), 5057);
    assert_eq!(port_from_setting(Some("")), 5057);
    assert_eq!(port_from_setting(Some("abc")), 5057);
}

#[test]
fn port_round_trips_through_the_address() {
    for port in [0u16, 1, 80, 5057, 65535] {
        let url = server_url(port);
        let text = url.trim_start_matches("http://localhost:");
        assert_eq!(port_from_setting(Some(text)), port);
    }
}

#[test]
fn server_address() {
    assert_eq!(server_url(5057), "http://localhost:5057");
    assert_eq!(server_url(0), "http://localhost:0");
}

#[test]
fn navigation_targets_are_parsed() {
    let t = navigation_target("http://localhost:5057").expect("parses");
    assert_eq!(t.serialized, "http://localhost:5057/");
    assert_eq!(t.url.port(), Some(5057));
    assert!(navigation_target("not a url").is_none());
    assert!(home_navigation("").is_none());
    let h = home_navigation("tauri://localhost").expect("parses");
    assert_eq!(h.serialized, "tauri://localhost");
}

#[test]
fn waiting_times_out_strictly_after_the_limit() {
    assert_eq!(startup_timeout_secs(), 180);
    assert_eq!(probe_interval_millis(), 500);
    assert!(!wait_timed_out(180_000_000_000, 180));
    assert!(wait_timed_out(180_000_000_001, 180));
    assert!(!wait_timed_out(0, 0));
    assert_eq!(wait_timeout_message(180), "Flask 服务在 180 秒内未响应");
}

#[test]
fn monitor_gives_up_after_three_silences() {
    assert_eq!(health_interval_secs(), 30);
    let mut failures = 0;
    let mut gave_up_at = None;
    for (i, up) in [false, false, true, false, false, false].iter().enumerate() {
        let v = health_step(failures, *up);
        failures = v.failures;
        if v.give_up {
            gave_up_at = Some(i);
            break;
        }
    }
    assert_eq!(gave_up_at, Some(5));
    assert_eq!(failures, 3);
    assert_eq!(unresponsive_message(), "Flask 服务已无响应，请重启应用");
}

#[test]
fn menu_and_port_cleanup() {
    assert!(is_update_menu_item("check_update"));
    assert!(!is_update_menu_item("quit"));
    assert_eq!(stale_port(), 5057);
}
