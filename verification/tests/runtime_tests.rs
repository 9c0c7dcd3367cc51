use pianke::modes::MirrorConfig;
use pianke::runtime::{
    app_script_path, deps_check_args, install_route, InstallRoute, any_supported_python, dev_fallback, dev_root, extracted_app_dir,
    install_progress_message, missing_app_message, opencv_conflicts, opencv_probe_args,
    opencv_reinstall_command, pip_install_args, pip_upgrade_args, plan_venv, resource_source_dir,
    system_venv_args, uninstall_args, up_dir, uv_candidates, uv_file_name, uv_install_args,
    uv_installer_command, uv_venv_args, venv_dir, venv_python_path, opencv_step_result, OpencvStep, PythonRuntime, failure_message, install_stage_message, no_python_message, venv_stage_message, InstallFailure, InstallStage, VenvStage, VenvMethod,
    VenvState,
};

fn strings(items: &[&str]) -> Vec<String> {
    items.iter().map(|s| s.to_string()).collect()
}

fn mirror(on: bool) -> MirrorConfig {
    MirrorConfig { use_mirror: on, pypi_url: "https://mirror/simple/".into(), hf_url: "https://hf".into() }
}

#[test]
fn uv_name_depends_on_platform() {
    assert_eq!(uv_file_name(true), "uv.exe");
    assert_eq!(uv_file_name(false), "uv");
}

#[test]
fn uv_is_searched_in_order() {
    let c = uv_candidates(Some("/data"), Some("/code"), &strings(&["/usr/bin", "/opt/bin/"]), Some("/home/u"), false);
    assert_eq!(
        c,
        strings(&[
            "/code/scripts/bin/uv",
            "/data/app/scripts/bin/uv",
            "/usr/bin/uv",
            "/opt/bin/uv",
            "/home/u/.local/bin/uv",
            "/home/u/.cargo/bin/uv",
        ])
    );
    assert_eq!(uv_candidates(None, None, &[], None, true), Vec::<String>::new());
}

#[test]
fn runtime_searches_its_code_dir_first() {
    let rt = PythonRuntime { venv_python: "/v/bin/python".into(), app_dir: "/code".into() };
    assert_eq!(
        rt.app_uv_search_path(&strings(&["C:\\bin", "D:"]), None, true),
        strings(&["/code\\scripts\\bin\\uv.exe", "C:\\bin\\uv.exe", "D:uv.exe"])
    );
    assert_eq!(PythonRuntime::uv_search_path(&[], Some("/h"), false), strings(&["/h/.local/bin/uv", "/h/.cargo/bin/uv"]));
}

#[test]
fn venv_paths() {
    assert_eq!(venv_dir("/data", false), "/data/.venv");
    assert_eq!(venv_dir("C:\\data", true), "C:\\data\\.venv");
    assert_eq!(venv_python_path("/data", false), "/data/.venv/bin/python");
    assert_eq!(venv_python_path("C:\\data", true), "C:\\data\\.venv\\Scripts\\python.exe");
    assert_eq!(venv_python_path("C:\\data\\", true), "C:\\data\\.venv\\Scripts\\python.exe");
}

#[test]
fn working_venv_is_reused() {
    let p = plan_venv(VenvState::Working, true, None, true);
    assert!(!p.remove_broken);
    assert!(p.notice.is_none());
    assert!(matches!(p.method, VenvMethod::Reuse));
}

#[test]
fn broken_venv_is_removed_and_rebuilt_with_uv() {
    let p = plan_venv(VenvState::Broken, true, Some("/usr/bin/python3"), false);
    assert!(p.remove_broken);
    match p.method {
        VenvMethod::Uv { python } => assert_eq!(python, "/usr/bin/python3"),
        _ => panic!("expected uv"),
    }
}

#[test]
fn uv_picks_any_supported_python_when_allowed() {
    match plan_venv(VenvState::Missing, true, None, true).method {
        VenvMethod::Uv { python } => assert_eq!(python, ">=3.10"),
        _ => panic!("expected uv"),
    }
}

#[test]
fn uv_waits_for_confirmation_before_download() {
    let p = plan_venv(VenvState::Missing, true, None, false);
    assert_eq!(p.notice.as_deref(), Some("已找到 uv，等待安装页确认后再下载 Python..."));
    assert!(matches!(p.method, VenvMethod::Fail));
}

#[test]
fn system_python_is_used_without_uv() {
    match plan_venv(VenvState::Missing, false, Some("/usr/bin/python3"), false).method {
        VenvMethod::SystemPython { python } => assert_eq!(python, "/usr/bin/python3"),
        _ => panic!("expected system python"),
    }
    // An empty interpreter path does not count.
    assert!(matches!(plan_venv(VenvState::Missing, false, Some(""), false).method, VenvMethod::Fail));
}

#[test]
fn uv_is_downloaded_as_last_resort() {
    assert!(matches!(plan_venv(VenvState::Missing, false, None, true).method, VenvMethod::InstallUv));
    assert!(matches!(plan_venv(VenvState::Broken, false, None, false).method, VenvMethod::Fail));
}

#[test]
fn venv_commands() {
    assert_eq!(uv_venv_args("/d/.venv", ">=3.10"), strings(&["venv", "/d/.venv", "--python", ">=3.10"]));
    assert_eq!(system_venv_args("/d/.venv"), strings(&["-m", "venv", "/d/.venv"]));
    assert_eq!(pip_upgrade_args(), strings(&["-m", "pip", "install", "--upgrade", "pip"]));
    let (p, a) = uv_installer_command(false);
    assert_eq!(p, "curl");
    assert_eq!(a, strings(&["-LSf", "https://astral.sh/uv/install.sh"]));
    let (p, a) = uv_installer_command(true);
    assert_eq!(p, "powershell");
    assert_eq!(a.last().unwrap(), "irm https://astral.sh/uv/install.ps1 | iex");
}

#[test]
fn install_commands_with_and_without_mirror() {
    let pkgs = strings(&["a", "b"]);
    assert_eq!(
        uv_install_args("/v/python", &mirror(true), &pkgs),
        strings(&["pip", "install", "--python", "/v/python", "--index-url", "https://mirror/simple/", "--extra-index-url", "https://pypi.org/simple/", "a", "b"])
    );
    assert_eq!(uv_install_args("/v/python", &mirror(false), &pkgs), strings(&["pip", "install", "--python", "/v/python", "a", "b"]));
    assert_eq!(
        pip_install_args(&mirror(true), &pkgs),
        strings(&["-m", "pip", "install", "--disable-pip-version-check", "-i", "https://mirror/simple/", "--extra-index-url", "https://pypi.org/simple/", "a", "b"])
    );
    assert_eq!(pip_install_args(&mirror(false), &[]), strings(&["-m", "pip", "install", "--disable-pip-version-check"]));
    assert_eq!(install_progress_message(3), "正在安装 3 个依赖包...");
}

#[test]
fn opencv_conflicts_are_parsed() {
    assert_eq!(opencv_conflicts("opencv-python|opencv-python-headless\n"), strings(&["opencv-python", "opencv-python-headless"]));
    assert_eq!(opencv_conflicts("  \n"), Vec::<String>::new());
    assert_eq!(opencv_conflicts("|opencv-python||"), strings(&["opencv-python"]));
    assert_eq!(opencv_probe_args()[0], "-c");
    assert_eq!(uninstall_args(&strings(&["x"])), strings(&["-m", "pip", "uninstall", "-y", "x"]));
}

#[test]
fn opencv_is_reinstalled_through_uv_or_pip() {
    let (p, a) = opencv_reinstall_command(Some("/bin/uv"), "/v/python");
    assert_eq!(p, "/bin/uv");
    assert_eq!(a, strings(&["pip", "install", "--python", "/v/python", "--force-reinstall", "--no-deps", "opencv-contrib-python>=4.9"]));
    let (p, a) = opencv_reinstall_command(None, "/v/python");
    assert_eq!(p, "/v/python");
    assert_eq!(a, strings(&["-m", "pip", "install", "--force-reinstall", "--no-deps", "opencv-contrib-python>=4.9"]));
}

#[test]
fn readiness_check_depends_on_modes() {
    assert_eq!(deps_check_args(&strings(&["fast"]))[1], "import cv2; from PIL import Image; import numpy; print('ok')");
    assert_eq!(deps_check_args(&strings(&["tycoon"]))[1], "import torch; import transformers; import cv2; print('ok')");
    assert_eq!(deps_check_args(&strings(&["fast", "expert"]))[1], "import torch; import transformers; import cv2; print('ok')");
}

#[test]
fn server_command() {
    let rt = PythonRuntime { venv_python: "/v/python".into(), app_dir: "/code".into() };
    assert_eq!(rt.flask_args(5057, false), strings(&["/code/app.py", "--port", "5057", "--runtime", "auto", "--no-browser"]));
    assert_eq!(rt.flask_args(0, false)[2], "0");
    assert_eq!(rt.flask_args(5057, true)[0], "/code\\app.py");
    assert_eq!(PythonRuntime::flask_environment(&mirror(true)), Some(("HF_ENDPOINT".to_string(), "https://hf".to_string())));
    assert_eq!(PythonRuntime::flask_environment(&mirror(false)), None);
}

#[test]
fn resource_locations() {
    assert_eq!(extracted_app_dir("/data", false), "/data/app");
    assert_eq!(extracted_app_dir("C:\\data", true), "C:\\data\\app");
    assert_eq!(app_script_path("/data/app", false), "/data/app/app.py");
    assert_eq!(app_script_path("C:\\data\\app", true), "C:\\data\\app\\app.py");
    assert_eq!(up_dir("/res", false), "/res/_up_");
    assert_eq!(resource_source_dir("/res", true, false), "/res/_up_");
    assert_eq!(resource_source_dir("/res", false, false), "/res");
    assert_eq!(resource_source_dir("C:\\res", true, true), "C:\\res\\_up_");
    assert_eq!(dev_root(Some("/proj"), "/res"), "/proj");
    assert_eq!(dev_root(None, "/res"), "/res");
    assert_eq!(dev_fallback("/proj", true, "/proj/src-tauri", true), Some("/proj".to_string()));
    assert_eq!(dev_fallback("/proj", false, "/cwd", true), Some("/cwd".to_string()));
    assert_eq!(dev_fallback("/proj", false, "/cwd", false), None);
    assert_eq!(missing_app_message("\"a\""), "未找到 app.py（尝试路径: \"a\"）");
}

#[test]
fn install_route_prefers_uv() {
    assert!(install_route(0, true) == InstallRoute::Nothing);
    assert!(install_route(3, true) == InstallRoute::Uv);
    assert!(install_route(3, false) == InstallRoute::Pip);
    assert_eq!(any_supported_python(), ">=3.10");
}

#[test]
fn opencv_steps_report_failures() {
    assert_eq!(opencv_step_result(OpencvStep::Uninstall, true, "ignored"), Ok(()));
    assert_eq!(opencv_step_result(OpencvStep::Reinstall, true, ""), Ok(()));
    assert_eq!(
        opencv_step_result(OpencvStep::Uninstall, false, "exit status: 1"),
        Err("卸载 OpenCV 冲突包失败: exit status: 1".to_string())
    );
    assert_eq!(
        opencv_step_result(OpencvStep::Reinstall, false, "no network"),
        Err("重新安装 opencv-contrib-python 失败: no network".to_string())
    );
}

#[test]
fn environment_status_lines() {
    assert_eq!(venv_stage_message(VenvStage::UvCreating), "使用 uv 创建虚拟环境...");
    assert_eq!(venv_stage_message(VenvStage::UvReady), "虚拟环境已就绪 (uv)");
    assert_eq!(venv_stage_message(VenvStage::SystemCreating), "使用系统 Python 创建虚拟环境...");
    assert_eq!(venv_stage_message(VenvStage::SystemReady), "虚拟环境已就绪 (venv)");
    assert_eq!(venv_stage_message(VenvStage::UvDownloading), "正在下载 uv（Python 工具链管理器）...");
    assert_eq!(venv_stage_message(VenvStage::UvInstalled), "uv 安装成功，正在创建虚拟环境...");
    assert_eq!(failure_message(InstallFailure::UvVenv, "x"), "uv venv 失败: x");
    assert_eq!(failure_message(InstallFailure::SystemVenv, "x"), "venv 创建失败: x");
    assert_eq!(failure_message(InstallFailure::UvDownload, "x"), "无法下载 uv: x");
    assert_eq!(failure_message(InstallFailure::UvInstaller, "x"), "uv 安装失败: x");
    assert_eq!(failure_message(InstallFailure::UvFetch, "x"), "下载 uv 失败: x");
    assert_eq!(failure_message(InstallFailure::PipInstall, ""), "pip 安装失败: ");
    assert_eq!(no_python_message(), "未找到 Python 3.10+，且无法自动安装");
    assert_eq!(install_stage_message(InstallStage::UvFallback), "uv 安装失败，回退到 pip...");
    assert_eq!(install_stage_message(InstallStage::PipInstalling), "正在用 pip 安装依赖（可能需要几分钟）...");
    assert_eq!(install_stage_message(InstallStage::OpencvFixing), "检测到 OpenCV 冲突包，正在修复...");
    assert_eq!(install_stage_message(InstallStage::OpencvFixed), "OpenCV 已修复");
    assert_eq!(install_stage_message(InstallStage::Done), "依赖安装完成");
    assert_eq!(install_stage_message(InstallStage::UvMissing), "uv 安装后未找到");
}
