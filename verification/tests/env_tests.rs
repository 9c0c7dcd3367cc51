use pianke::env::{
    assess_environment, free_space_for_path, is_supported_version, python_candidates,
    python_missing_message, system_python_version, venv_python_version, version_args, DiskInfo,
    Level,
};

const GIB: u64 = 1 << 30;

#[test]
fn candidates_and_arguments() {
    assert_eq!(python_candidates(), vec!["python3".to_string(), "python".to_string()]);
    assert_eq!(version_args(), vec!["--version".to_string()]);
}

#[test]
fn supported_versions() {
    for v in [
        "Python 3.10.1",
        "Python 3.11.0",
        "Python 3.12.3",
        "Python 3.13.0rc1",
        "Python 3.14.0",
        "Python 3.15.0a1",
        "Python 3.100.1",
    ] {
        assert!(is_supported_version(v), "{}", v);
    }
    for v in ["Python 3.9.18", "Python 2.7.18", "", "Python 3.09", "Python 13.10", "Python 3.", "Python 3.1"] {
        assert!(!is_supported_version(v), "{}", v);
    }
}

#[test]
fn system_version_from_stdout_or_stderr() {
    assert_eq!(system_python_version(true, "Python 3.12.3\n", ""), Some("Python 3.12.3".to_string()));
    assert_eq!(system_python_version(true, "  \n", "Python 3.11.2\r\n"), Some("Python 3.11.2".to_string()));
    assert_eq!(system_python_version(true, "Python 3.8.0\n", "Python 3.12.0"), None);
    assert_eq!(system_python_version(true, "", "Python 2.7.18"), None);
    assert_eq!(system_python_version(false, "Python 3.12.3", ""), None);
    assert_eq!(system_python_version(true, "Python 3.14.0\n", ""), Some("Python 3.14.0".to_string()));
}

#[test]
fn venv_version_is_trimmed_stdout() {
    assert_eq!(venv_python_version(true, " Python 3.9.1\n"), Some("Python 3.9.1".to_string()));
    assert_eq!(venv_python_version(true, "\n"), None);
    assert_eq!(venv_python_version(false, "Python 3.12.0"), None);
}

#[test]
fn free_space_comes_from_first_matching_mount() {
    let disks = vec![
        DiskInfo { mount_point: "/boot".into(), available_bytes: 1 },
        DiskInfo { mount_point: "/".into(), available_bytes: 100 },
        DiskInfo { mount_point: "/home".into(), available_bytes: 200 },
    ];
    assert_eq!(free_space_for_path("/home/u", &disks), 100);
    assert_eq!(free_space_for_path("/boot/efi", &disks), 1);
    assert_eq!(free_space_for_path("C:\\Users", &disks), 0);
    assert_eq!(free_space_for_path("/x", &[]), 0);
}

#[test]
fn disk_thresholds() {
    assert!(assess_environment(true, false, GIB - 1, 8 * GIB).disk == Level::Insufficient);
    assert!(assess_environment(true, false, GIB, 8 * GIB).disk == Level::Tight);
    assert!(assess_environment(true, false, 5 * GIB - 1, 8 * GIB).disk == Level::Tight);
    assert!(assess_environment(true, false, 5 * GIB, 8 * GIB).disk == Level::Enough);
}

#[test]
fn memory_thresholds() {
    assert!(assess_environment(true, false, 8 * GIB, 2 * GIB - 1).memory == Level::Insufficient);
    assert!(assess_environment(true, false, 8 * GIB, 2 * GIB).memory == Level::Tight);
    assert!(assess_environment(true, false, 8 * GIB, 4 * GIB - 1).memory == Level::Tight);
    assert!(assess_environment(true, false, 8 * GIB, 4 * GIB).memory == Level::Enough);
}

#[test]
fn python_missing_only_without_venv() {
    assert!(assess_environment(false, false, 0, 0).python_missing);
    assert!(!assess_environment(false, true, 0, 0).python_missing);
    assert!(!assess_environment(true, false, 0, 0).python_missing);
    assert_eq!(python_missing_message(), "未找到 Python 3.10+。请安装 Python 或稍后通过 uv 自动安装。");
}

#[test]
fn thresholds_agree_with_the_gigabyte_figures() {
    for bytes in [0, GIB - 1, GIB, GIB + 1, 2 * GIB - 1, 2 * GIB, 4 * GIB - 1, 4 * GIB, 5 * GIB - 1, 5 * GIB, u64::MAX] {
        let gb = bytes as f64 / 1_073_741_824.0;
        let a = assess_environment(true, true, bytes, bytes);
        assert_eq!(a.disk == Level::Insufficient, gb < 1.0);
        assert_eq!(a.disk == Level::Tight, !(gb < 1.0) && gb < 5.0);
        let mem = bytes as f64 / 1024.0 / 1024.0 / 1024.0;
        assert_eq!(a.memory == Level::Insufficient, mem < 2.0);
        assert_eq!(a.memory == Level::Tight, !(mem < 2.0) && mem < 4.0);
    }
}
