use pianke::launch::{launch_begin, launch_step, LaunchAction, LaunchEvent, LaunchState};
use pianke::server::server_url;

const SEC: u128 = 1_000_000_000;

fn step(s: LaunchState, e: LaunchEvent) -> (LaunchState, LaunchAction) {
    launch_step(s, e, 5057)
}

#[test]
fn install_comes_first_when_needed() {
    let (s, a) = launch_begin(true, true, 14);
    assert!(s == LaunchState::Installing);
    match a {
        LaunchAction::Install { status } => assert_eq!(status, "准备安装 14 个依赖包（首次可能需要几分钟）..."),
        _ => panic!("expected Install"),
    }
    let (s, _) = launch_begin(false, false, 9);
    assert!(s == LaunchState::Installing);
    let (s, a) = launch_begin(false, true, 9);
    assert!(s == LaunchState::Starting);
    match a {
        LaunchAction::Start { notice } => assert_eq!(notice, Some("依赖已就绪，正在启动服务...".to_string())),
        _ => panic!("expected Start"),
    }
}

#[test]
fn a_full_launch_runs_in_order() {
    let (s, a) = step(LaunchState::Installing, LaunchEvent::Installed { error: None });
    assert!(s == LaunchState::Starting);
    assert!(matches!(a, LaunchAction::Start { notice: None }));

    let (s, a) = step(s, LaunchEvent::Started { error: None });
    assert!(s == LaunchState::Waiting);
    match a {
        LaunchAction::CheckClock { notice, pause_millis } => {
            assert_eq!(notice, Some("等待服务就绪...".to_string()));
            assert_eq!(pause_millis, 0);
        }
        _ => panic!("expected CheckClock"),
    }

    let (s, a) = step(s, LaunchEvent::Clock { elapsed_nanos: SEC });
    assert!(s == LaunchState::Probing);
    assert!(matches!(a, LaunchAction::Probe));

    let (s, a) = step(s, LaunchEvent::Probe { up: false });
    assert!(s == LaunchState::Waiting);
    assert!(matches!(a, LaunchAction::CheckClock { notice: None, pause_millis: 500 }));

    let (s, _) = step(s, LaunchEvent::Clock { elapsed_nanos: 2 * SEC });
    let (s, a) = step(s, LaunchEvent::Probe { up: true });
    assert!(s == LaunchState::Monitoring { failures: 0 });
    match a {
        LaunchAction::Ready { url } => {
            assert_eq!(url, server_url(5057));
            assert_eq!(url, "http://localhost:5057");
        }
        _ => panic!("expected Ready"),
    }

    // Two silences, an answer, then three silences in a row.
    let (s, a) = step(s, LaunchEvent::Probe { up: false });
    assert!(s == LaunchState::Monitoring { failures: 1 } && matches!(a, LaunchAction::Watch));
    let (s, _) = step(s, LaunchEvent::Probe { up: false });
    let (s, a) = step(s, LaunchEvent::Probe { up: true });
    assert!(s == LaunchState::Monitoring { failures: 0 } && matches!(a, LaunchAction::Watch));
    let (s, _) = step(s, LaunchEvent::Probe { up: false });
    let (s, _) = step(s, LaunchEvent::Probe { up: false });
    assert!(s == LaunchState::Monitoring { failures: 2 });
    let (s, a) = step(s, LaunchEvent::Probe { up: false });
    assert!(s == LaunchState::Finished);
    match a {
        LaunchAction::Fail { message } => assert_eq!(message, "Flask 服务已无响应，请重启应用"),
        _ => panic!("expected Fail"),
    }
    let (s, a) = step(s, LaunchEvent::Probe { up: true });
    assert!(s == LaunchState::Finished && matches!(a, LaunchAction::Idle));
}

#[test]
fn the_start_up_wait_runs_out_after_three_minutes() {
    let (s, a) = step(LaunchState::Waiting, LaunchEvent::Clock { elapsed_nanos: 180 * SEC });
    assert!(s == LaunchState::Probing && matches!(a, LaunchAction::Probe));
    let (s, a) = step(LaunchState::Waiting, LaunchEvent::Clock { elapsed_nanos: 180 * SEC + 1 });
    assert!(s == LaunchState::Finished);
    match a {
        LaunchAction::Fail { message } => assert_eq!(message, "服务启动超时: Flask 服务在 180 秒内未响应"),
        _ => panic!("expected Fail"),
    }
}

#[test]
fn failures_to_install_or_start_end_the_launch() {
    let (s, a) = step(LaunchState::Installing, LaunchEvent::Installed { error: Some("boom".into()) });
    assert!(s == LaunchState::Finished);
    match a {
        LaunchAction::Fail { message } => assert_eq!(message, "依赖安装失败: boom"),
        _ => panic!("expected Fail"),
    }
    let (s, a) = step(LaunchState::Starting, LaunchEvent::Started { error: Some("no python".into()) });
    assert!(s == LaunchState::Finished);
    match a {
        LaunchAction::Fail { message } => assert_eq!(message, "无法启动服务: no python"),
        _ => panic!("expected Fail"),
    }
}

#[test]
fn events_out_of_turn_change_nothing() {
    let (s, a) = step(LaunchState::Starting, LaunchEvent::Probe { up: true });
    assert!(s == LaunchState::Starting && matches!(a, LaunchAction::Idle));
    let (s, a) = step(LaunchState::Monitoring { failures: 1 }, LaunchEvent::Clock { elapsed_nanos: 0 });
    assert!(s == LaunchState::Monitoring { failures: 1 } && matches!(a, LaunchAction::Idle));
}
