use pianke::setup::{python_setup_failed_message, setup_notice, SetupNotice};
use pianke::modes::{packages_for_modes, packages_signature, AppState, InstallState};
use pianke::setup::{
    auto_start_candidate, auto_start_modes, check_setup_request, checks_for_updates, install_notice,
    plan_setup, run_mode, run_mode_status,
};

fn strings(items: &[&str]) -> Vec<String> {
    items.iter().map(|s| s.to_string()).collect()
}

fn state(modes: &[&str], sig: &str, sha: &str) -> InstallState {
    InstallState { modes: strings(modes), packages_sig: sig.to_string(), commit_sha: sha.to_string() }
}

#[test]
fn run_mode_follows_app_script() {
    assert_eq!(run_mode(true), "bundled");
    assert_eq!(run_mode(false), "dev");
    assert_eq!(run_mode_status("dev"), "运行模式: dev");
    assert!(checks_for_updates("bundled"));
    assert!(!checks_for_updates("dev"));
}

#[test]
fn unknown_mode_is_refused_first() {
    let r = check_setup_request(&strings(&["fast", "turbo", "nope"]), false);
    assert_eq!(r, Err("未知模式: turbo".to_string()));
}

#[test]
fn empty_choice_is_refused() {
    assert_eq!(check_setup_request(&[], true), Err("请至少选择一个模式".to_string()));
}

#[test]
fn missing_python_is_refused() {
    assert_eq!(
        check_setup_request(&strings(&["fast"]), false),
        Err("无法找到 Python，请安装 Python 3.10+ 或安装 uv".to_string())
    );
}

#[test]
fn valid_request_is_accepted() {
    assert_eq!(check_setup_request(&strings(&["expert", "fast"]), true), Ok(()));
}

#[test]
fn plan_keeps_commit_and_records_signature() {
    let saved = state(&["fast"], "old", "abc123");
    let plan = plan_setup(&strings(&["tycoon"]), &saved);
    assert_eq!(plan.packages, packages_for_modes(&strings(&["tycoon"])));
    assert_eq!(plan.packages_sig, packages_signature(&plan.packages));
    assert_eq!(plan.install_state.modes, strings(&["tycoon"]));
    assert_eq!(plan.install_state.packages_sig, plan.packages_sig);
    assert_eq!(plan.install_state.commit_sha, "abc123");
    assert!(plan.signature_changed);
}

#[test]
fn unchanged_signature_is_detected() {
    let modes = strings(&["fast"]);
    let sig = packages_signature(&packages_for_modes(&modes));
    let plan = plan_setup(&modes, &state(&["fast"], &sig, ""));
    assert!(!plan.signature_changed);
}

#[test]
fn stored_setup_starts_automatically() {
    // The state a set-up stores is accepted by the next start.
    let plan = plan_setup(&strings(&["expert"]), &InstallState::default());
    assert!(auto_start_candidate(&plan.install_state, true));
    assert_eq!(auto_start_modes(&plan.install_state, true, true), Some(strings(&["expert"])));
    assert_eq!(auto_start_modes(&plan.install_state, true, false), None);
    assert_eq!(auto_start_modes(&plan.install_state, false, true), None);
}

#[test]
fn stale_or_empty_state_does_not_start() {
    assert!(!auto_start_candidate(&state(&["fast"], "stale", ""), true));
    assert!(!auto_start_candidate(&InstallState::default(), true));
}

#[test]
fn install_notice_counts_packages() {
    assert_eq!(install_notice(12), "准备安装 12 个依赖包（首次可能需要几分钟）...");
}

#[test]
fn app_state_knows_its_environment() {
    let mut s = AppState {
        resource_dir: "r".into(),
        app_data_dir: "d".into(),
        python_path: String::new(),
        venv_python: String::new(),
        app_dir: "a".into(),
        home_url: String::new(),
    };
    assert!(!s.venv_ready());
    assert_eq!(s.system_python(), None);
    s.venv_python = "/v/bin/python".into();
    s.python_path = "/usr/bin/python3".into();
    assert!(s.venv_ready());
    assert_eq!(s.system_python(), Some("/usr/bin/python3".to_string()));
}

#[test]
fn initial_set_up_status_lines() {
    assert_eq!(setup_notice(SetupNotice::InstallingPython), "未找到 Python，正在尝试通过 uv 安装...");
    assert_eq!(setup_notice(SetupNotice::PythonReady), "Python 环境已就绪");
    assert_eq!(setup_notice(SetupNotice::CheckingUpdates), "正在检查更新...");
    assert_eq!(setup_notice(SetupNotice::SkippingUpdates), "跳过更新检查（Python 环境未就绪）");
    assert_eq!(python_setup_failed_message("no uv"), "Python 环境创建失败: no uv");
}
