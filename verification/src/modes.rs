//! Feature modes, the pip packages they need, the persisted install state and
//! the mirror settings.

use vstd::prelude::*;
use crate::text::{
    chars_of, clone_strings, concat2, concat3, contains_text, join_strings, join_with, owned,
    push_owned, str_eq,
};

verus! {

// ---------------------------------------------------------------------------
// Data
// ---------------------------------------------------------------------------

/// What the set-up page shows of one feature mode.
pub struct ModeInfo {
    pub key: String,
    pub label: String,
    pub description: String,
    pub download_size: String,
    pub time_estimate: String,
    pub selected: bool,
}

/// The text of a `ModeInfo`.
pub struct ModeView {
    pub key: Seq<char>,
    pub label: Seq<char>,
    pub description: Seq<char>,
    pub download_size: Seq<char>,
    pub time_estimate: Seq<char>,
    pub selected: bool,
}

impl View for ModeInfo {
    type V = ModeView;

    open spec fn view(&self) -> ModeView {
        ModeView {
            key: self.key@,
            label: self.label@,
            description: self.description@,
            download_size: self.download_size@,
            time_estimate: self.time_estimate@,
            selected: self.selected,
        }
    }
}

/// What the shell remembers between runs: the chosen modes, the signature of
/// the package list installed for them and the commit the code stands at.
pub struct InstallState {
    pub modes: Vec<String>,
    pub packages_sig: String,
    pub commit_sha: String,
}

/// The text of an `InstallState`.
pub struct InstallStateView {
    pub modes: Seq<Seq<char>>,
    pub packages_sig: Seq<char>,
    pub commit_sha: Seq<char>,
}

impl View for InstallState {
    type V = InstallStateView;

    open spec fn view(&self) -> InstallStateView {
        InstallStateView {
            modes: self.modes.deep_view(),
            packages_sig: self.packages_sig@,
            commit_sha: self.commit_sha@,
        }
    }
}

impl Default for InstallState {
    /// No modes, no signature, no commit.
    fn default() -> (r: InstallState)
        ensures
            r@.modes.len() == 0,
            r@.packages_sig.len() == 0,
            r@.commit_sha.len() == 0,
    {
        let r = InstallState { modes: Vec::new(), packages_sig: String::new(), commit_sha: String::new() };
        assert(r@.modes =~= Seq::<Seq<char>>::empty());
        r
    }
}

impl InstallState {
    /// A copy of this state.
    pub fn duplicate(&self) -> (r: InstallState)
        ensures
            r@ == self@,
    {
        InstallState {
            modes: clone_strings(self.modes.as_slice()),
            packages_sig: self.packages_sig.clone(),
            commit_sha: self.commit_sha.clone(),
        }
    }
}

/// Where pip packages and models are downloaded from.
pub struct MirrorConfig {
    pub use_mirror: bool,
    pub pypi_url: String,
    pub hf_url: String,
}

/// The package index mirror.
pub open spec fn spec_pypi_mirror() -> Seq<char> {
    "https://pypi.tuna.tsinghua.edu.cn/simple/"@
}

/// The model hub mirror.
pub open spec fn spec_hf_mirror() -> Seq<char> {
    "https://hf-mirror.com"@
}

/// The text of an optional string.
pub open spec fn opt_str(o: Option<&str>) -> Option<Seq<char>> {
    match o {
        Some(s) => Some(s@),
        None => None,
    }
}

impl MirrorConfig {
    /// The mirror settings for the value of the `PIANKE_NO_MIRROR` setting
    /// (none when it is unset or unreadable): the mirrors are used unless it
    /// is exactly `1`.
    pub fn from_setting(no_mirror: Option<&str>) -> (r: MirrorConfig)
        ensures
            r.use_mirror == (opt_str(no_mirror) != Some("1"@)),
            r.pypi_url@ == spec_pypi_mirror(),
            r.hf_url@ == spec_hf_mirror(),
    {
        let off = match no_mirror {
            Some(v) => str_eq(v, "1"),
            None => false,
        };
        MirrorConfig {
            use_mirror: !off,
            pypi_url: owned("https://pypi.tuna.tsinghua.edu.cn/simple/"),
            hf_url: owned("https://hf-mirror.com"),
        }
    }
}

/// The application's paths and settings, as found at start-up.
/// An empty `venv_python` means that no virtual environment exists yet.
pub struct AppState {
    pub resource_dir: String,
    pub app_data_dir: String,
    pub python_path: String,
    pub venv_python: String,
    pub app_dir: String,
    pub home_url: String,
}

impl AppState {
    /// Whether the virtual environment's Python is known.
    pub fn venv_ready(&self) -> (r: bool)
        ensures
            r == (self.venv_python@.len() > 0),
    {
        !self.venv_python.as_str().is_empty()
    }

    /// The system Python to build the environment from, if one was found.
    pub fn system_python(&self) -> (r: Option<String>)
        ensures
            r matches Some(p) ==> p@ == self.python_path@,
            r is Some <==> self.python_path@.len() > 0,
    {
        if self.python_path.as_str().is_empty() {
            None
        } else {
            Some(self.python_path.clone())
        }
    }
}

// ---------------------------------------------------------------------------
// Paths
// ---------------------------------------------------------------------------

/// Whether `c` separates the parts of a path: `/`, and on Windows `\\` too.
pub open spec fn is_separator(c: char, windows: bool) -> bool {
    c == '/' || (windows && c == '\\')
}

/// A Windows drive prefix on its own, such as `C:`.
pub open spec fn is_drive(s: Seq<char>) -> bool {
    &&& s.len() == 2
    &&& s[1] == ':'
    &&& ('a' <= s[0] <= 'z' || 'A' <= s[0] <= 'Z')
}

/// A path that starts like a Windows verbatim path (`\\?\...`), whose
/// parts Windows normalises again when it is extended.
pub open spec fn is_verbatim(s: Seq<char>) -> bool {
    s.len() >= 3 && s[0] == '\\' && s[1] == '\\' && s[2] == '?'
}

/// A plain file name such as `bin` or `.venv`: not empty, and starting with
/// none of `/`, `\\`, `?` nor with a drive.
pub open spec fn is_simple_name(name: Seq<char>) -> bool {
    &&& name.len() > 0
    &&& name[0] != '/' && name[0] != '\\' && name[0] != '?'
    &&& !(name.len() >= 2 && name[1] == ':')
}

/// Joining a simple name keeps a path inside the inputs `join_path` is
/// stated for.
pub proof fn lemma_join_simple(base: Seq<char>, name: Seq<char>, windows: bool)
    requires
        !(windows && is_verbatim(base)),
        is_simple_name(name),
    ensures
        joinable(base, name, windows),
        !(windows && is_verbatim(path_join(base, name, windows))),
{
    let r = path_join(base, name, windows);
    if windows && base.len() > 0 {
        assert(r.len() >= base.len() + 1);
        if base.len() >= 3 {
            assert(r[0] == base[0] && r[1] == base[1] && r[2] == base[2]);
        } else if base.len() == 2 {
            assert(r[0] == base[0] && r[1] == base[1]);
            if is_separator(base.last(), windows) || is_drive(base) {
                assert(r[2] == name[0]);
            } else {
                assert(r[2] == '\\');
            }
        } else {
            assert(r[0] == base[0]);
            if is_separator(base.last(), windows) {
                assert(r[1] == name[0]);
            } else {
                assert(r[1] == '\\');
                assert(r[2] == name[0]);
            }
        }
    }
}

/// A name that extends a path rather than replacing it: on Windows it starts
/// neither with a separator nor with a drive prefix.
pub open spec fn is_relative_name(name: Seq<char>, windows: bool) -> bool {
    &&& !(name.len() > 0 && is_separator(name[0], windows))
    &&& !(windows && name.len() >= 2 && is_drive(name.take(2)))
}

/// The separator that joining inserts: `\\` on Windows, `/` elsewhere.
pub open spec fn separator(windows: bool) -> Seq<char> {
    if windows {
        seq!['\\']
    } else {
        seq!['/']
    }
}

/// `name` appended to the directory `base`, as the platform's paths join: a
/// separator goes between them unless `base` is empty, already ends with a
/// separator or (on Windows) is a bare drive such as `C:`; elsewhere than
/// Windows an absolute `name` stands alone.
pub open spec fn path_join(base: Seq<char>, name: Seq<char>, windows: bool) -> Seq<char> {
    if !windows && name.len() > 0 && name[0] == '/' {
        name
    } else if base.len() == 0 {
        name
    } else if is_separator(base.last(), windows) || (windows && is_drive(base)) {
        base + name
    } else {
        base + separator(windows) + name
    }
}

/// The inputs that `join_path` is stated for: on Windows, a name that does
/// not start with a separator or a drive, under a directory that is not a
/// verbatim path.
pub open spec fn joinable(base: Seq<char>, name: Seq<char>, windows: bool) -> bool {
    windows ==> is_relative_name(name, true) && !is_verbatim(base)
}

fn is_ascii_letter(c: char) -> (r: bool)
    ensures
        r == ('a' <= c <= 'z' || 'A' <= c <= 'Z'),
{
    ('a' <= c && c <= 'z') || ('A' <= c && c <= 'Z')
}

/// Whether `join_path` is stated for `base` and `name` (see `joinable`).
pub fn can_join(base: &str, name: &str, windows: bool) -> (r: bool)
    ensures
        r == joinable(base@, name@, windows),
{
    if !windows {
        return true;
    }
    let b = chars_of(base);
    let n = chars_of(name);
    let verbatim = b.len() >= 3 && b[0] == '\\' && b[1] == '\\' && b[2] == '?';
    let rooted = n.len() > 0 && (n[0] == '/' || n[0] == '\\');
    let drive = n.len() >= 2 && n[1] == ':' && is_ascii_letter(n[0]);
    proof {
        if n.len() >= 2 {
            assert(n@.take(2)[0] == n@[0] && n@.take(2)[1] == n@[1]);
        }
    }
    !verbatim && !rooted && !drive
}

/// The path of `name` inside the directory `base` on Windows or elsewhere.
pub fn join_path(base: &str, name: &str, windows: bool) -> (r: String)
    requires
        joinable(base@, name@, windows),
    ensures
        r@ == path_join(base@, name@, windows),
{
    let b = chars_of(base);
    let n = chars_of(name);
    if !windows && n.len() > 0 && n[0] == '/' {
        owned(name)
    } else if b.len() == 0 {
        owned(name)
    } else {
        let last = b[b.len() - 1];
        let drive = windows && b.len() == 2 && b[1] == ':' && is_ascii_letter(b[0]);
        if last == '/' || (windows && last == '\\') || drive {
            concat2(base, name)
        } else if windows {
            proof {
                reveal_strlit("\\");
            }
            concat3(base, "\\", name)
        } else {
            proof {
                reveal_strlit("/");
            }
            concat3(base, "/", name)
        }
    }
}

/// The install state file's name.
pub open spec fn spec_state_file_name() -> Seq<char> {
    ".pic_selecter_install.json"@
}

/// Where the install state is stored inside the application data directory.
pub fn state_file_path(app_data_dir: &str, windows: bool) -> (r: String)
    requires
        !(windows && is_verbatim(app_data_dir@)),
    ensures
        r@ == path_join(app_data_dir@, spec_state_file_name(), windows),
{
    proof {
        reveal_strlit(".pic_selecter_install.json");
        lemma_join_simple(app_data_dir@, spec_state_file_name(), windows);
    }
    join_path(app_data_dir, ".pic_selecter_install.json", windows)
}

// ---------------------------------------------------------------------------
// Modes
// ---------------------------------------------------------------------------

/// The three feature modes' keys, in display order.
pub open spec fn mode_keys() -> Seq<Seq<char>> {
    seq!["fast"@, "expert"@, "tycoon"@]
}

/// One entry of the mode catalogue.
pub open spec fn mode_entry(
    key: Seq<char>,
    label: Seq<char>,
    description: Seq<char>,
    download_size: Seq<char>,
    time_estimate: Seq<char>,
    previous: Seq<Seq<char>>,
) -> ModeView {
    ModeView { key, label, description, download_size, time_estimate, selected: previous.contains(key) }
}

/// The mode catalogue, each mode marked selected when `previous` names it.
pub open spec fn mode_catalogue(previous: Seq<Seq<char>>) -> Seq<ModeView> {
    seq![
        mode_entry(
            "fast"@,
            "极速模式（Fast）"@,
            "纯本地、极速、适合低配设备。零 AI 模型依赖，图像哈希 + 传统 CV 分组。"@,
            "约 200MB"@,
            "1-3 分钟"@,
            previous,
        ),
        mode_entry(
            "expert"@,
            "专家模式（Expert）"@,
            "本地 AI、识人更准。DINOv2 + 人脸识别 + EXIF 融合分组。"@,
            "约 2-3GB"@,
            "5-15 分钟"@,
            previous,
        ),
        mode_entry(
            "tycoon"@,
            "土豪模式（Tycoon）"@,
            "大模型视觉判定、人话解说。需自备 API Key。"@,
            "约 5MB"@,
            "约 30 秒"@,
            previous,
        ),
    ]
}

/// The views of a list of modes.
pub open spec fn modes_view(v: Seq<ModeInfo>) -> Seq<ModeView> {
    v.map_values(|m: ModeInfo| m@)
}

fn mode_info(
    key: &str,
    label: &str,
    description: &str,
    download_size: &str,
    time_estimate: &str,
    previous: &[String],
) -> (r: ModeInfo)
    ensures
        r@ == mode_entry(key@, label@, description@, download_size@, time_estimate@, previous.deep_view()),
{
    ModeInfo {
        key: owned(key),
        label: owned(label),
        description: owned(description),
        download_size: owned(download_size),
        time_estimate: owned(time_estimate),
        selected: contains_text(previous, key),
    }
}

/// All feature modes, each marked selected when `previous` names it.
pub fn get_modes(previous: &[String]) -> (r: Vec<ModeInfo>)
    ensures
        modes_view(r@) == mode_catalogue(previous.deep_view()),
{
    let mut r: Vec<ModeInfo> = Vec::new();
    r.push(
        mode_info(
            "fast",
            "极速模式（Fast）",
            "纯本地、极速、适合低配设备。零 AI 模型依赖，图像哈希 + 传统 CV 分组。",
            "约 200MB",
            "1-3 分钟",
            previous,
        ),
    );
    r.push(
        mode_info(
            "expert",
            "专家模式（Expert）",
            "本地 AI、识人更准。DINOv2 + 人脸识别 + EXIF 融合分组。",
            "约 2-3GB",
            "5-15 分钟",
            previous,
        ),
    );
    r.push(
        mode_info(
            "tycoon",
            "土豪模式（Tycoon）",
            "大模型视觉判定、人话解说。需自备 API Key。",
            "约 5MB",
            "约 30 秒",
            previous,
        ),
    );
    assert(modes_view(r@) =~= mode_catalogue(previous.deep_view()));
    r
}

/// The catalogue lists the fast, expert and tycoon modes in this order, and
/// marks each selected exactly when the previous choice names that mode's
/// own key.
pub proof fn law_selected_iff_previously_chosen(previous: Seq<Seq<char>>)
    ensures
        mode_catalogue(previous).len() == 3,
        forall|k: int| 0 <= k < 3 ==> #[trigger] mode_catalogue(previous)[k].key == mode_keys()[k],
        forall|k: int|
            0 <= k < 3 ==> #[trigger] mode_catalogue(previous)[k].selected == previous.contains(
                mode_keys()[k],
            ),
{
}

/// Whether `key` names one of the feature modes.
pub fn is_known_mode(key: &str) -> (r: bool)
    ensures
        r == mode_keys().contains(key@),
{
    let fast = str_eq(key, "fast");
    let expert = str_eq(key, "expert");
    let tycoon = str_eq(key, "tycoon");
    assert(mode_keys()[0] == "fast"@);
    assert(mode_keys()[1] == "expert"@);
    assert(mode_keys()[2] == "tycoon"@);
    fast || expert || tycoon
}

// ---------------------------------------------------------------------------
// Packages
// ---------------------------------------------------------------------------

/// The packages every mode needs.
pub open spec fn core_packages() -> Seq<Seq<char>> {
    seq![
        "Pillow>=10.0"@,
        "pillow-heif>=0.16"@,
        "numpy>=1.26"@,
        "scipy>=1.11"@,
        "flask>=3.0"@,
        "imagehash>=4.3"@,
        "opencv-contrib-python>=4.9"@,
        "rawpy>=0.18"@,
        "piexif>=1.1.3"@,
    ]
}

/// The vision base packages, needed by the expert and the tycoon mode.
pub open spec fn vision_packages() -> Seq<Seq<char>> {
    seq!["transformers>=4.40"@, "insightface>=0.7"@]
}

/// The packages only the expert mode adds.
pub open spec fn expert_packages() -> Seq<Seq<char>> {
    seq!["pyiqa>=0.1.10"@, "timm>=0.9"@]
}

/// The packages only the tycoon mode adds.
pub open spec fn tycoon_packages() -> Seq<Seq<char>> {
    seq!["openai>=1.40"@]
}

/// The packages to install for the chosen `modes`, in install order.
pub open spec fn packages_spec(modes: Seq<Seq<char>>) -> Seq<Seq<char>> {
    let expert = modes.contains("expert"@);
    let tycoon = modes.contains("tycoon"@);
    core_packages() + (if expert || tycoon {
        vision_packages()
    } else {
        Seq::empty()
    }) + (if expert {
        expert_packages()
    } else {
        Seq::empty()
    }) + (if tycoon {
        tycoon_packages()
    } else {
        Seq::empty()
    })
}

/// The signature of a package list: the names joined by `|`.
pub open spec fn signature_of(packages: Seq<Seq<char>>) -> Seq<char> {
    join_with(packages, "|"@)
}

/// The pip packages needed by the chosen `modes`.
pub fn packages_for_modes(modes: &[String]) -> (r: Vec<String>)
    ensures
        r.deep_view() == packages_spec(modes.deep_view()),
{
    let mut pkgs: Vec<String> = Vec::new();
    push_owned(&mut pkgs, "Pillow>=10.0");
    push_owned(&mut pkgs, "pillow-heif>=0.16");
    push_owned(&mut pkgs, "numpy>=1.26");
    push_owned(&mut pkgs, "scipy>=1.11");
    push_owned(&mut pkgs, "flask>=3.0");
    push_owned(&mut pkgs, "imagehash>=4.3");
    push_owned(&mut pkgs, "opencv-contrib-python>=4.9");
    push_owned(&mut pkgs, "rawpy>=0.18");
    push_owned(&mut pkgs, "piexif>=1.1.3");
    assert(pkgs.deep_view() =~= core_packages());
    let expert = contains_text(modes, "expert");
    let tycoon = contains_text(modes, "tycoon");
    let ghost after_core = pkgs.deep_view();
    if expert || tycoon {
        push_owned(&mut pkgs, "transformers>=4.40");
        push_owned(&mut pkgs, "insightface>=0.7");
        assert(pkgs.deep_view() =~= after_core + vision_packages());
    } else {
        assert(pkgs.deep_view() =~= after_core + Seq::<Seq<char>>::empty());
    }
    let ghost after_vision = pkgs.deep_view();
    if expert {
        push_owned(&mut pkgs, "pyiqa>=0.1.10");
        push_owned(&mut pkgs, "timm>=0.9");
        assert(pkgs.deep_view() =~= after_vision + expert_packages());
    } else {
        assert(pkgs.deep_view() =~= after_vision + Seq::<Seq<char>>::empty());
    }
    let ghost after_expert = pkgs.deep_view();
    if tycoon {
        push_owned(&mut pkgs, "openai>=1.40");
        assert(pkgs.deep_view() =~= after_expert + tycoon_packages());
    } else {
        assert(pkgs.deep_view() =~= after_expert + Seq::<Seq<char>>::empty());
    }
    pkgs
}

/// The signature of the package list needed by `modes`.
pub fn packages_signature(packages: &Vec<String>) -> (r: String)
    ensures
        r@ == signature_of(packages.deep_view()),
{
    join_strings(packages, "|")
}

} // verus!
