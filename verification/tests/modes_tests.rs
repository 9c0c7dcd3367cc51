use pianke::modes::{
    can_join, get_modes, join_path, packages_for_modes, packages_signature, state_file_path, InstallState,
    MirrorConfig,
};

fn strings(items: &[&str]) -> Vec<String> {
    items.iter().map(|s| s.to_string()).collect()
}

const CORE: [&str; 9] = [
    "Pillow>=10.0",
    "pillow-heif>=0.16",
    "numpy>=1.26",
    "scipy>=1.11",
    "flask>=3.0",
    "imagehash>=4.3",
    "opencv-contrib-python>=4.9",
    "rawpy>=0.18",
    "piexif>=1.1.3",
];

#[test]
fn mode_list_has_three_modes_in_order() {
    let modes = get_modes(&[]);
    let keys: Vec<&str> = modes.iter().map(|m| m.key.as_str()).collect();
    assert_eq!(keys, vec!["fast", "expert", "tycoon"]);
    assert!(modes.iter().all(|m| !m.selected));
    assert_eq!(modes[0].label, "极速模式（Fast）");
    assert_eq!(modes[1].download_size, "约 2-3GB");
    assert_eq!(modes[2].time_estimate, "约 30 秒");
}

#[test]
fn previous_choice_is_marked_selected() {
    let modes = get_modes(&strings(&["tycoon", "fast", "unknown"]));
    assert!(modes[0].selected);
    assert!(!modes[1].selected);
    assert!(modes[2].selected);
}

#[test]
fn fast_mode_needs_only_core_packages() {
    assert_eq!(packages_for_modes(&strings(&["fast"])), strings(&CORE));
    assert_eq!(packages_for_modes(&[]), strings(&CORE));
}

#[test]
fn expert_mode_adds_vision_and_expert_packages() {
    let mut expected = strings(&CORE);
    expected.extend(strings(&["transformers>=4.40", "insightface>=0.7", "pyiqa>=0.1.10", "timm>=0.9"]));
    assert_eq!(packages_for_modes(&strings(&["expert"])), expected);
}

#[test]
fn tycoon_mode_adds_vision_and_openai() {
    let mut expected = strings(&CORE);
    expected.extend(strings(&["transformers>=4.40", "insightface>=0.7", "openai>=1.40"]));
    assert_eq!(packages_for_modes(&strings(&["tycoon"])), expected);
}

#[test]
fn all_modes_install_vision_once() {
    let mut expected = strings(&CORE);
    expected.extend(strings(&[
        "transformers>=4.40",
        "insightface>=0.7",
        "pyiqa>=0.1.10",
        "timm>=0.9",
        "openai>=1.40",
    ]));
    let all = packages_for_modes(&strings(&["fast", "expert", "tycoon"]));
    assert_eq!(all, expected);
    // Order and repetition of the modes make no difference.
    assert_eq!(packages_for_modes(&strings(&["tycoon", "expert", "tycoon"])), all);
}

#[test]
fn signature_joins_packages_with_bars() {
    let sig = packages_signature(&strings(&["a", "b>=1", "c"]));
    assert_eq!(sig, "a|b>=1|c");
    assert_eq!(packages_signature(&Vec::new()), "");
    let core_sig = packages_signature(&packages_for_modes(&strings(&["fast"])));
    assert_eq!(core_sig, CORE.join("|"));
}

#[test]
fn state_file_lives_in_data_dir() {
    assert_eq!(state_file_path("/home/u/data", false), "/home/u/data/.pic_selecter_install.json");
    assert_eq!(state_file_path("/home/u/data/", false), "/home/u/data/.pic_selecter_install.json");
    assert_eq!(state_file_path("", false), ".pic_selecter_install.json");
    // Windows joins with a backslash, keeps an existing separator of either
    // kind, and adds none after a bare drive.
    assert_eq!(state_file_path("C:\\d", true), "C:\\d\\.pic_selecter_install.json");
    assert_eq!(state_file_path("C:\\d/", true), "C:\\d/.pic_selecter_install.json");
    assert_eq!(state_file_path("C:", true), "C:.pic_selecter_install.json");
    assert_eq!(state_file_path("\\\\srv\\share", true), "\\\\srv\\share\\.pic_selecter_install.json");
}

#[test]
fn join_path_handles_separators_and_absolute_names() {
    assert_eq!(join_path("a", "b", false), "a/b");
    assert_eq!(join_path("a/", "b", false), "a/b");
    assert_eq!(join_path("a", "/etc", false), "/etc");
    assert_eq!(join_path("a\\", "b", false), "a\\/b");
    assert_eq!(join_path("a", "b", true), "a\\b");
    assert_eq!(join_path("a\\", "b", true), "a\\b");
    assert_eq!(join_path("a/", "b", true), "a/b");
    assert!(can_join("C:\\x", "b", true));
    assert!(!can_join("C:\\x", "\\b", true));
    assert!(!can_join("C:\\x", "D:b", true));
    assert!(!can_join("\\\\?\\C:\\x", "b", true));
    assert!(can_join("\\\\?\\C:\\x", "/b", false));
}

#[test]
fn mirrors_are_on_unless_disabled() {
    let on = MirrorConfig::from_setting(None);
    assert!(on.use_mirror);
    assert_eq!(on.pypi_url, "https://pypi.tuna.tsinghua.edu.cn/simple/");
    assert_eq!(on.hf_url, "https://hf-mirror.com");
    assert!(!MirrorConfig::from_setting(Some("1")).use_mirror);
    assert!(MirrorConfig::from_setting(Some("")).use_mirror);
    assert!(MirrorConfig::from_setting(Some("0")).use_mirror);
    assert!(MirrorConfig::from_setting(Some(" 1")).use_mirror);
    assert!(MirrorConfig::from_setting(Some("true")).use_mirror);
}

#[test]
fn default_install_state_is_empty() {
    let s = InstallState::default();
    assert!(s.modes.is_empty());
    assert!(s.packages_sig.is_empty());
    assert!(s.commit_sha.is_empty());
    let copy = InstallState { modes: strings(&["fast"]), packages_sig: "x".into(), commit_sha: "y".into() }
        .duplicate();
    assert_eq!(copy.modes, strings(&["fast"]));
    assert_eq!(copy.packages_sig, "x");
    assert_eq!(copy.commit_sha, "y");
}

fn is_subsequence(small: &[String], big: &[String]) -> bool {
    let mut it = big.iter();
    small.iter().all(|x| it.any(|y| y == x))
}

#[test]
fn more_modes_keep_the_smaller_list_in_order() {
    let sets: [&[&str]; 5] = [&[], &["fast"], &["expert"], &["tycoon"], &["fast", "expert", "tycoon"]];
    for a in sets.iter() {
        for b in sets.iter() {
            if a.iter().all(|m| b.contains(m)) {
                let pa = packages_for_modes(&strings(a));
                let pb = packages_for_modes(&strings(b));
                assert!(is_subsequence(&pa, &pb), "{:?} {:?}", a, b);
            }
        }
    }
}

#[test]
fn package_lists_have_their_documented_shape() {
    let sets: [&[&str]; 6] = [&[], &["fast"], &["expert"], &["tycoon"], &["expert", "tycoon"], &["fast", "expert", "tycoon"]];
    let core = packages_for_modes(&strings(&["fast"]));
    assert_eq!(core.len(), 9);
    for m in sets.iter() {
        let p = packages_for_modes(&strings(m));
        assert!([9, 12, 13, 14].contains(&p.len()), "{:?}", m);
        assert_eq!(&p[..9], &core[..]);
        for i in 0..p.len() {
            for j in 0..i {
                assert_ne!(p[i], p[j]);
            }
        }
        let opencv: Vec<&String> = p.iter().filter(|x| x.starts_with("opencv")).collect();
        assert_eq!(opencv, vec!["opencv-contrib-python>=4.9"]);
    }
}
