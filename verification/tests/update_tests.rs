use pianke::modes::InstallState;
use pianke::update::{
    archive_root, can_name_commits, can_shorten, commit_request_args, commits_api_url,
    download_args, download_failed_message, download_missing_message, extract_sha, is_preserved,
    local_sha_display, plan_update, record_commit, short_sha, tarball_url, unpack_args,
    unpack_failed_message, update_archive_path, update_failed_message, update_unpack_dir,
    updated_message, state_after_update, UpdatePlan,
};

const SHA: &str = "0123456789abcdef0123456789abcdef01234567";

#[test]
fn sha_is_read_from_api_reply() {
    let body = format!("{{\"sha\":\"{}\",\"node_id\":\"x\",\"commit\":{{\"tree\":{{\"sha\":\"ffff\"}}}}}}", SHA);
    assert_eq!(extract_sha(&body), Some(SHA.to_string()));
}

#[test]
fn sha_reading_edge_cases() {
    assert_eq!(extract_sha("{\"message\":\"Not Found\"}"), None);
    assert_eq!(extract_sha(""), None);
    assert_eq!(extract_sha("\"sha\":\"abc"), Some("abc".to_string()));
    assert_eq!(extract_sha("\"sha\":\"\""), Some(String::new()));
    // Whitespace after the colon is allowed, as in JSON.
    assert_eq!(extract_sha("\"sha\": \"abc\""), Some("abc".to_string()));
    assert_eq!(extract_sha("\"sha\":\t\n \"abc\""), Some("abc".to_string()));
    // A key whose value is not a string is passed over.
    assert_eq!(extract_sha("{\"sha\": null, \"x\": {\"sha\": \"def\"}}"), Some("def".to_string()));
}

#[test]
fn sha_is_read_from_pretty_printed_reply() {
    let body = format!(
        "{{\n  \"sha\": \"{}\",\n  \"node_id\": \"C_x\",\n  \"commit\": {{\n    \"tree\": {{\n      \"sha\": \"ffff\"\n    }}\n  }}\n}}\n",
        SHA
    );
    assert_eq!(extract_sha(&body), Some(SHA.to_string()));
}

#[test]
fn short_names_take_eight_bytes() {
    assert_eq!(short_sha(SHA), "01234567");
    assert!(can_shorten(SHA));
    assert!(!can_shorten("abc"));
    // A multi-byte character across byte 8 cannot be cut.
    assert!(!can_shorten("abcdefg\u{00e9}"));
    assert_eq!(local_sha_display("abc"), "abc");
    assert_eq!(local_sha_display("abcdefghij"), "abcdefgh");
}

#[test]
fn unreachable_remote_skips() {
    match plan_update("abc", None) {
        UpdatePlan::Unreachable { message } => assert_eq!(message, "无法连接 GitHub 检查更新，跳过"),
        _ => panic!("expected Unreachable"),
    }
}

#[test]
fn same_commit_is_up_to_date() {
    match plan_update(SHA, Some(SHA)) {
        UpdatePlan::UpToDate { message } => assert_eq!(message, "已是最新版本（01234567）"),
        _ => panic!("expected UpToDate"),
    }
}

#[test]
fn first_run_only_records() {
    match plan_update("", Some(SHA)) {
        UpdatePlan::RecordOnly { message, commit_sha } => {
            assert_eq!(message, "标记当前版本为 01234567");
            assert_eq!(commit_sha, SHA);
        }
        _ => panic!("expected RecordOnly"),
    }
}

#[test]
fn newer_commit_is_downloaded() {
    match plan_update("fedcba9876543210", Some(SHA)) {
        UpdatePlan::Download { message, commit_sha, url } => {
            assert_eq!(message, "发现新版本 01234567（当前 fedcba98），正在下载...");
            assert_eq!(commit_sha, SHA);
            assert_eq!(url, format!("https://codeload.github.com/zhaoyue4810/pianke/tar.gz/{}", SHA));
        }
        _ => panic!("expected Download"),
    }
    match plan_update("abc", Some(SHA)) {
        UpdatePlan::Download { message, .. } => {
            assert_eq!(message, "发现新版本 01234567（当前 abc），正在下载...")
        }
        _ => panic!("expected Download"),
    }
}

#[test]
fn commit_naming_preconditions() {
    assert!(can_name_commits("abc", None));
    assert!(can_name_commits("abc", Some(SHA)));
    assert!(!can_name_commits("abc", Some("short")));
    assert!(!can_name_commits("abcdefg\u{00e9}", Some(SHA)));
    // The remote commit is always shown.
    assert!(!can_name_commits("abcdefg\u{00e9}", Some("abcdefg\u{00e9}")));
    // When nothing is downloaded the local commit is not shown.
    assert!(can_name_commits("", Some(SHA)));
}

#[test]
fn ascii_local_commits_can_always_be_named() {
    for local in ["", "a", "abcdefg", "abcdefgh", "abcdefghi", "fedcba9876543210", SHA] {
        assert!(can_name_commits(local, Some(SHA)), "{}", local);
        assert!(can_name_commits(local, Some("\u{4e2d}\u{6587}xy")), "{}", local);
    }
}

#[test]
fn recorded_commit_becomes_current() {
    let state = InstallState { modes: vec!["fast".into()], packages_sig: "sig".into(), commit_sha: String::new() };
    let recorded = record_commit(&state, SHA);
    assert_eq!(recorded.modes, vec!["fast".to_string()]);
    assert_eq!(recorded.packages_sig, "sig");
    assert_eq!(recorded.commit_sha, SHA);
    assert!(matches!(plan_update(&recorded.commit_sha, Some(SHA)), UpdatePlan::UpToDate { .. }));
}

#[test]
fn update_messages() {
    assert_eq!(updated_message(SHA), "已更新到版本 01234567");
    assert_eq!(download_failed_message("boom"), "下载失败: boom");
    assert_eq!(download_missing_message(), "下载失败：文件未创建");
    assert_eq!(update_failed_message("bad"), "更新失败: bad");
    assert_eq!(unpack_failed_message("tar"), "解压失败: tar");
}

#[test]
fn update_commands_and_paths() {
    assert_eq!(commits_api_url(), "https://api.github.com/repos/zhaoyue4810/pianke/commits/main");
    assert_eq!(
        commit_request_args("U"),
        vec!["-s", "-H", "User-Agent: pianke-updater", "--connect-timeout", "8", "--max-time", "10", "U"]
    );
    assert_eq!(tarball_url("x"), "https://codeload.github.com/zhaoyue4810/pianke/tar.gz/x");
    assert_eq!(
        download_args("/a/.update.tar.gz", "U"),
        vec!["-sL", "--connect-timeout", "15", "--max-time", "60", "-o", "/a/.update.tar.gz", "U"]
    );
    assert_eq!(update_archive_path("/a", false), "/a/.update.tar.gz");
    assert_eq!(update_unpack_dir("/a", false), "/a/.update_tmp");
    assert_eq!(update_archive_path("C:\\a", true), "C:\\a\\.update.tar.gz");
    assert_eq!(update_unpack_dir("C:\\a", true), "C:\\a\\.update_tmp");
    assert_eq!(unpack_args("t", "d"), vec!["-xzf", "t", "-C", "d"]);
}

#[test]
fn preserved_entries_are_left_alone() {
    for name in [".venv", ".pic_selecter_install.json", "models", "__pycache__", ".git"] {
        assert!(is_preserved(name), "{}", name);
    }
    for name in ["app.py", "static", ".gitignore", "model"] {
        assert!(!is_preserved(name), "{}", name);
    }
}

#[test]
fn archive_must_have_one_root() {
    assert_eq!(archive_root(&["pianke-abc".to_string()]), Ok("pianke-abc".to_string()));
    assert_eq!(archive_root(&[]), Err("更新包结构异常".to_string()));
    assert_eq!(archive_root(&["a".to_string(), "b".to_string()]), Err("更新包结构异常".to_string()));
}

fn stored(sha: &str) -> InstallState {
    InstallState { modes: vec!["expert".into()], packages_sig: "a|b".into(), commit_sha: sha.into() }
}

#[test]
fn commit_is_saved_only_when_recorded_or_applied() {
    // First run: the remote commit is recorded, the rest kept.
    let s = state_after_update(&stored(""), Some(SHA), false).expect("recorded");
    assert_eq!(s.commit_sha, SHA);
    assert_eq!(s.modes, vec!["expert".to_string()]);
    assert_eq!(s.packages_sig, "a|b");
    // A download is saved only once applied.
    assert!(state_after_update(&stored("fedcba98"), Some(SHA), false).is_none());
    let s = state_after_update(&stored("fedcba98"), Some(SHA), true).expect("applied");
    assert_eq!(s.commit_sha, SHA);
    assert_eq!(s.packages_sig, "a|b");
    // Up to date or unreachable: nothing is saved.
    assert!(state_after_update(&stored(SHA), Some(SHA), true).is_none());
    assert!(state_after_update(&stored("fedcba98"), None, true).is_none());
}
