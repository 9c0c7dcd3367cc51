//! The Python runtime: where its files live, how the virtual environment is
//! obtained, and the commands that install packages and start the server.

use vstd::prelude::*;
use crate::modes::{is_simple_name, is_verbatim, join_path, lemma_join_simple, path_join, MirrorConfig};
use crate::text::{
    concat2, contains_text, decimal, decimal_string, owned, push_owned, push_string, split_char,
    split_on, trim, trimmed,
};

verus! {

/// A Python virtual environment and the code directory it runs.
pub struct PythonRuntime {
    pub venv_python: String,
    pub app_dir: String,
}

// ---------------------------------------------------------------------------
// Locating `uv`
// ---------------------------------------------------------------------------

/// The file name of the `uv` executable.
pub open spec fn uv_name(windows: bool) -> Seq<char> {
    if windows {
        "uv.exe"@
    } else {
        "uv"@
    }
}

/// The file name of the `uv` executable on Windows or elsewhere.
pub fn uv_file_name(windows: bool) -> (r: String)
    ensures
        r@ == uv_name(windows),
{
    if windows {
        owned("uv.exe")
    } else {
        owned("uv")
    }
}

/// `a/b/c` under `base`.
pub open spec fn path3(base: Seq<char>, a: Seq<char>, b: Seq<char>, c: Seq<char>, windows: bool) -> Seq<
    char,
> {
    path_join(path_join(path_join(base, a, windows), b, windows), c, windows)
}

/// An optional directory that is not a Windows verbatim path.
pub open spec fn no_verbatim(o: Option<Seq<char>>, windows: bool) -> bool {
    match o {
        Some(d) => !(windows && is_verbatim(d)),
        None => true,
    }
}

/// The places where `uv` is looked for, in order: the copy shipped in the
/// code directory, the copy extracted into the data directory, each
/// directory of the search path, then `~/.local/bin` and `~/.cargo/bin`.
pub open spec fn uv_candidates_spec(
    app_data_dir: Option<Seq<char>>,
    app_dir: Option<Seq<char>>,
    path_dirs: Seq<Seq<char>>,
    home: Option<Seq<char>>,
    windows: bool,
) -> Seq<Seq<char>> {
    let uv = uv_name(windows);
    let shipped = match app_dir {
        Some(d) => seq![path3(d, "scripts"@, "bin"@, uv, windows)],
        None => Seq::empty(),
    };
    let extracted = match app_data_dir {
        Some(d) => seq![path_join(path3(d, "app"@, "scripts"@, "bin"@, windows), uv, windows)],
        None => Seq::empty(),
    };
    let searched = path_dirs.map_values(|d: Seq<char>| path_join(d, uv, windows));
    let homes = match home {
        Some(h) => seq![path3(h, ".local"@, "bin"@, uv, windows), path3(h, ".cargo"@, "bin"@, uv, windows)],
        None => Seq::empty(),
    };
    shipped + extracted + searched + homes
}

fn path3_exec(base: &str, a: &str, b: &str, c: &str, windows: bool) -> (r: String)
    requires
        !(windows && is_verbatim(base@)),
        is_simple_name(a@),
        is_simple_name(b@),
        is_simple_name(c@),
    ensures
        r@ == path3(base@, a@, b@, c@, windows),
        !(windows && is_verbatim(r@)),
{
    proof {
        lemma_join_simple(base@, a@, windows);
    }
    let x = join_path(base, a, windows);
    proof {
        lemma_join_simple(x@, b@, windows);
    }
    let y = join_path(x.as_str(), b, windows);
    proof {
        lemma_join_simple(y@, c@, windows);
    }
    join_path(y.as_str(), c, windows)
}

/// The literal names that the runtime's paths are made of are simple names.
proof fn lemma_runtime_names(windows: bool)
    ensures
        is_simple_name("scripts"@),
        is_simple_name("bin"@),
        is_simple_name("app"@),
        is_simple_name(".local"@),
        is_simple_name(".cargo"@),
        is_simple_name(".venv"@),
        is_simple_name("Scripts"@),
        is_simple_name("python.exe"@),
        is_simple_name("python"@),
        is_simple_name("app.py"@),
        is_simple_name("_up_"@),
        is_simple_name(uv_name(windows)),
{
    reveal_strlit("scripts");
    reveal_strlit("bin");
    reveal_strlit("app");
    reveal_strlit(".local");
    reveal_strlit(".cargo");
    reveal_strlit(".venv");
    reveal_strlit("Scripts");
    reveal_strlit("python.exe");
    reveal_strlit("python");
    reveal_strlit("app.py");
    reveal_strlit("_up_");
    reveal_strlit("uv");
    reveal_strlit("uv.exe");
}

/// The places where `uv` is looked for, first to last (the first existing
/// file wins).
pub fn uv_candidates(
    app_data_dir: Option<&str>,
    app_dir: Option<&str>,
    path_dirs: &[String],
    home: Option<&str>,
    windows: bool,
) -> (r: Vec<String>)
    requires
        no_verbatim(opt_view(app_data_dir), windows),
        no_verbatim(opt_view(app_dir), windows),
        no_verbatim(opt_view(home), windows),
        forall|i: int| 0 <= i < path_dirs.len() ==> !(windows && is_verbatim(#[trigger] path_dirs[i]@)),
    ensures
        r.deep_view() == uv_candidates_spec(
            opt_view(app_data_dir),
            opt_view(app_dir),
            path_dirs.deep_view(),
            opt_view(home),
            windows,
        ),
{
    let uv = uv_file_name(windows);
    proof {
        lemma_runtime_names(windows);
    }
    let mut r: Vec<String> = Vec::new();
    let ghost e = Seq::<Seq<char>>::empty();
    match app_dir {
        Some(d) => {
            push_string(&mut r, path3_exec(d, "scripts", "bin", uv.as_str(), windows));
        },
        None => {},
    }
    let ghost s1 = r.deep_view();
    match app_data_dir {
        Some(d) => {
            let p = path3_exec(d, "app", "scripts", "bin", windows);
            proof {
                lemma_join_simple(p@, uv@, windows);
            }
            push_string(&mut r, join_path(p.as_str(), uv.as_str(), windows));
        },
        None => {},
    }
    let ghost s2 = r.deep_view();
    let ghost uvv = uv@;
    let mut i: usize = 0;
    while i < path_dirs.len()
        invariant
            i <= path_dirs.len(),
            uvv == uv@,
            is_simple_name(uvv),
            forall|k: int| 0 <= k < path_dirs.len() ==> !(windows && is_verbatim(#[trigger] path_dirs[k]@)),
            r.deep_view() == s2 + path_dirs.deep_view().take(i as int).map_values(
                |d: Seq<char>| path_join(d, uvv, windows),
            ),
        decreases path_dirs.len() - i,
    {
        proof {
            lemma_join_simple(path_dirs[i as int]@, uvv, windows);
        }
        push_string(&mut r, join_path(path_dirs[i].as_str(), uv.as_str(), windows));
        assert(path_dirs.deep_view().take(i + 1).map_values(|d: Seq<char>| path_join(d, uvv, windows))
            =~= path_dirs.deep_view().take(i as int).map_values(
            |d: Seq<char>| path_join(d, uvv, windows),
        ).push(path_join(path_dirs[i as int]@, uvv, windows)));
        i += 1;
    }
    assert(path_dirs.deep_view().take(path_dirs.len() as int) =~= path_dirs.deep_view());
    let ghost s3 = r.deep_view();
    match home {
        Some(h) => {
            push_string(&mut r, path3_exec(h, ".local", "bin", uv.as_str(), windows));
            push_string(&mut r, path3_exec(h, ".cargo", "bin", uv.as_str(), windows));
        },
        None => {},
    }
    assert(r.deep_view() =~= uv_candidates_spec(
        opt_view(app_data_dir),
        opt_view(app_dir),
        path_dirs.deep_view(),
        opt_view(home),
        windows,
    ));
    r
}

/// The text of an optional string.
pub open spec fn opt_view(o: Option<&str>) -> Option<Seq<char>> {
    match o {
        Some(s) => Some(s@),
        None => None,
    }
}

impl PythonRuntime {
    /// Where `uv` is looked for without a code directory: the search path
    /// and the home directory.
    pub fn uv_search_path(path_dirs: &[String], home: Option<&str>, windows: bool) -> (r: Vec<
        String,
    >)
        requires
            no_verbatim(opt_view(home), windows),
            forall|i: int|
                0 <= i < path_dirs.len() ==> !(windows && is_verbatim(#[trigger] path_dirs[i]@)),
        ensures
            r.deep_view() == uv_candidates_spec(None, None, path_dirs.deep_view(), opt_view(home), windows),
    {
        uv_candidates(None, None, path_dirs, home, windows)
    }

    /// Where `uv` is looked for by this runtime: first in its code directory.
    pub fn app_uv_search_path(&self, path_dirs: &[String], home: Option<&str>, windows: bool) -> (r:
        Vec<String>)
        requires
            !(windows && is_verbatim(self.app_dir@)),
            no_verbatim(opt_view(home), windows),
            forall|i: int|
                0 <= i < path_dirs.len() ==> !(windows && is_verbatim(#[trigger] path_dirs[i]@)),
        ensures
            r.deep_view() == uv_candidates_spec(
                None,
                Some(self.app_dir@),
                path_dirs.deep_view(),
                opt_view(home),
                windows,
            ),
    {
        uv_candidates(None, Some(self.app_dir.as_str()), path_dirs, home, windows)
    }
}

// ---------------------------------------------------------------------------
// The virtual environment
// ---------------------------------------------------------------------------

/// The virtual environment's directory inside the data directory.
pub open spec fn spec_venv_dir(app_data_dir: Seq<char>, windows: bool) -> Seq<char> {
    path_join(app_data_dir, ".venv"@, windows)
}

/// The virtual environment's directory inside the data directory.
pub fn venv_dir(app_data_dir: &str, windows: bool) -> (r: String)
    requires
        !(windows && is_verbatim(app_data_dir@)),
    ensures
        r@ == spec_venv_dir(app_data_dir@, windows),
        !(windows && is_verbatim(r@)),
{
    proof {
        lemma_runtime_names(windows);
        lemma_join_simple(app_data_dir@, ".venv"@, windows);
    }
    join_path(app_data_dir, ".venv", windows)
}

/// The virtual environment's Python interpreter.
pub open spec fn spec_venv_python(app_data_dir: Seq<char>, windows: bool) -> Seq<char> {
    if windows {
        path_join(path_join(spec_venv_dir(app_data_dir, true), "Scripts"@, true), "python.exe"@, true)
    } else {
        path_join(path_join(spec_venv_dir(app_data_dir, false), "bin"@, false), "python"@, false)
    }
}

/// The virtual environment's Python interpreter on Windows or elsewhere.
pub fn venv_python_path(app_data_dir: &str, windows: bool) -> (r: String)
    requires
        !(windows && is_verbatim(app_data_dir@)),
    ensures
        r@ == spec_venv_python(app_data_dir@, windows),
{
    proof {
        lemma_runtime_names(windows);
    }
    let dir = venv_dir(app_data_dir, windows);
    if windows {
        proof {
            lemma_join_simple(dir@, "Scripts"@, true);
        }
        let scripts = join_path(dir.as_str(), "Scripts", true);
        proof {
            lemma_join_simple(scripts@, "python.exe"@, true);
        }
        join_path(scripts.as_str(), "python.exe", true)
    } else {
        let bin = join_path(dir.as_str(), "bin", false);
        join_path(bin.as_str(), "python", false)
    }
}

/// What was found of an existing virtual environment.
#[derive(PartialEq, Eq, Structural, Clone, Copy)]
pub enum VenvState {
    /// There is no interpreter.
    Missing,
    /// The interpreter runs.
    Working,
    /// The interpreter exists but does not run.
    Broken,
}

/// How the virtual environment is obtained.
pub enum VenvMethod {
    /// The existing environment is used as it is.
    Reuse,
    /// `uv` creates it for the interpreter `python`.
    Uv { python: String },
    /// The system interpreter `python` creates it.
    SystemPython { python: String },
    /// `uv` is downloaded first and then creates it.
    InstallUv,
    /// Nothing can create it.
    Fail,
}

/// The text of a `VenvMethod`.
pub enum VenvStep {
    Reuse,
    Uv(Seq<char>),
    SystemPython(Seq<char>),
    InstallUv,
    Fail,
}

impl View for VenvMethod {
    type V = VenvStep;

    open spec fn view(&self) -> VenvStep {
        match self {
            VenvMethod::Reuse => VenvStep::Reuse,
            VenvMethod::Uv { python } => VenvStep::Uv(python@),
            VenvMethod::SystemPython { python } => VenvStep::SystemPython(python@),
            VenvMethod::InstallUv => VenvStep::InstallUv,
            VenvMethod::Fail => VenvStep::Fail,
        }
    }
}

/// The plan for obtaining the virtual environment.
pub struct VenvPlan {
    /// A broken environment is deleted first.
    pub remove_broken: bool,
    /// The status line shown while `uv` waits for the set-up page.
    pub notice: Option<String>,
    pub method: VenvMethod,
}

/// The interpreter request that lets `uv` pick (or fetch) any supported Python.
pub fn any_supported_python() -> (r: String)
    ensures
        r@ == ">=3.10"@,
{
    owned(">=3.10")
}

/// How the environment is obtained: a working one is kept; otherwise `uv`
/// creates it when found and either a download is allowed or a system
/// interpreter is known (that interpreter, or any Python 3.10+); otherwise a
/// non-empty system interpreter creates it; otherwise `uv` is downloaded when
/// allowed; otherwise it fails.
pub open spec fn venv_step(
    state: VenvState,
    uv_found: bool,
    python: Option<Seq<char>>,
    ensure_uv: bool,
) -> VenvStep {
    if state == VenvState::Working {
        VenvStep::Reuse
    } else if uv_found && (ensure_uv || python is Some) {
        VenvStep::Uv(
            match python {
                Some(p) => p,
                None => ">=3.10"@,
            },
        )
    } else if python matches Some(p) && p.len() > 0 {
        VenvStep::SystemPython(python->0)
    } else if ensure_uv {
        VenvStep::InstallUv
    } else {
        VenvStep::Fail
    }
}

/// `uv` was found but may not download an interpreter yet: it waits for the
/// set-up page.
pub open spec fn venv_waits(
    state: VenvState,
    uv_found: bool,
    python: Option<Seq<char>>,
    ensure_uv: bool,
) -> bool {
    state != VenvState::Working && uv_found && !ensure_uv && python is None
}

/// The stages of building the virtual environment that are shown as status.
#[derive(PartialEq, Eq, Structural, Clone, Copy)]
pub enum VenvStage {
    /// Building it with `uv`.
    UvCreating,
    /// Built with `uv`.
    UvReady,
    /// Building it with the system interpreter.
    SystemCreating,
    /// Built with the system interpreter.
    SystemReady,
    /// Downloading `uv`.
    UvDownloading,
    /// `uv` was downloaded; building with it.
    UvInstalled,
}

/// The status line of a stage of building the virtual environment.
pub open spec fn venv_stage_text(stage: VenvStage) -> Seq<char> {
    match stage {
        VenvStage::UvCreating => "使用 uv 创建虚拟环境..."@,
        VenvStage::UvReady => "虚拟环境已就绪 (uv)"@,
        VenvStage::SystemCreating => "使用系统 Python 创建虚拟环境..."@,
        VenvStage::SystemReady => "虚拟环境已就绪 (venv)"@,
        VenvStage::UvDownloading => "正在下载 uv（Python 工具链管理器）..."@,
        VenvStage::UvInstalled => "uv 安装成功，正在创建虚拟环境..."@,
    }
}

/// The status line of a stage of building the virtual environment.
pub fn venv_stage_message(stage: VenvStage) -> (r: String)
    ensures
        r@ == venv_stage_text(stage),
{
    match stage {
        VenvStage::UvCreating => owned("使用 uv 创建虚拟环境..."),
        VenvStage::UvReady => owned("虚拟环境已就绪 (uv)"),
        VenvStage::SystemCreating => owned("使用系统 Python 创建虚拟环境..."),
        VenvStage::SystemReady => owned("虚拟环境已就绪 (venv)"),
        VenvStage::UvDownloading => owned("正在下载 uv（Python 工具链管理器）..."),
        VenvStage::UvInstalled => owned("uv 安装成功，正在创建虚拟环境..."),
    }
}

/// The ways building the virtual environment or installing into it fails.
#[derive(PartialEq, Eq, Structural, Clone, Copy)]
pub enum InstallFailure {
    /// `uv venv` failed.
    UvVenv,
    /// `python -m venv` failed.
    SystemVenv,
    /// `uv` could not be obtained.
    UvDownload,
    /// The `uv` installer failed.
    UvInstaller,
    /// Fetching the `uv` installer failed.
    UvFetch,
    /// `pip install` failed.
    PipInstall,
}

/// The error text of a failure to build the virtual environment, before its
/// detail.
pub open spec fn failure_prefix(f: InstallFailure) -> Seq<char> {
    match f {
        InstallFailure::UvVenv => "uv venv 失败: "@,
        InstallFailure::SystemVenv => "venv 创建失败: "@,
        InstallFailure::UvDownload => "无法下载 uv: "@,
        InstallFailure::UvInstaller => "uv 安装失败: "@,
        InstallFailure::UvFetch => "下载 uv 失败: "@,
        InstallFailure::PipInstall => "pip 安装失败: "@,
    }
}

/// The error of a failure to build the environment or install into it,
/// with `detail`.
pub fn failure_message(f: InstallFailure, detail: &str) -> (r: String)
    ensures
        r@ == failure_prefix(f) + detail@,
{
    match f {
        InstallFailure::UvVenv => concat2("uv venv 失败: ", detail),
        InstallFailure::SystemVenv => concat2("venv 创建失败: ", detail),
        InstallFailure::UvDownload => concat2("无法下载 uv: ", detail),
        InstallFailure::UvInstaller => concat2("uv 安装失败: ", detail),
        InstallFailure::UvFetch => concat2("下载 uv 失败: ", detail),
        InstallFailure::PipInstall => concat2("pip 安装失败: ", detail),
    }
}

/// The progress lines of installing the packages.
#[derive(PartialEq, Eq, Structural, Clone, Copy)]
pub enum InstallStage {
    /// `uv` failed; pip takes over.
    UvFallback,
    /// Installing with pip.
    PipInstalling,
    /// Clashing OpenCV builds were found.
    OpencvFixing,
    /// The OpenCV builds were put right.
    OpencvFixed,
    /// The packages are installed.
    Done,
    /// The `uv` installer ran but `uv` is still not found.
    UvMissing,
}

/// The text of a progress line of installing the packages.
pub open spec fn install_stage_text(stage: InstallStage) -> Seq<char> {
    match stage {
        InstallStage::UvFallback => "uv 安装失败，回退到 pip..."@,
        InstallStage::PipInstalling => "正在用 pip 安装依赖（可能需要几分钟）..."@,
        InstallStage::OpencvFixing => "检测到 OpenCV 冲突包，正在修复..."@,
        InstallStage::OpencvFixed => "OpenCV 已修复"@,
        InstallStage::Done => "依赖安装完成"@,
        InstallStage::UvMissing => "uv 安装后未找到"@,
    }
}

/// The text of a progress line of installing the packages.
pub fn install_stage_message(stage: InstallStage) -> (r: String)
    ensures
        r@ == install_stage_text(stage),
{
    match stage {
        InstallStage::UvFallback => owned("uv 安装失败，回退到 pip..."),
        InstallStage::PipInstalling => owned("正在用 pip 安装依赖（可能需要几分钟）..."),
        InstallStage::OpencvFixing => owned("检测到 OpenCV 冲突包，正在修复..."),
        InstallStage::OpencvFixed => owned("OpenCV 已修复"),
        InstallStage::Done => owned("依赖安装完成"),
        InstallStage::UvMissing => owned("uv 安装后未找到"),
    }
}

/// The error when no interpreter is known and `uv` may not be downloaded.
pub fn no_python_message() -> (r: String)
    ensures
        r@ == "未找到 Python 3.10+，且无法自动安装"@,
{
    owned("未找到 Python 3.10+，且无法自动安装")
}

/// Plans how to obtain the virtual environment from what was found: the
/// state of an existing one, whether `uv` was found, the system interpreter
/// (if known) and whether downloading `uv` is allowed.
pub fn plan_venv(state: VenvState, uv_found: bool, python: Option<&str>, ensure_uv: bool) -> (r:
    VenvPlan)
    ensures
        r.remove_broken == (state == VenvState::Broken),
        r.method@ == venv_step(state, uv_found, opt_view(python), ensure_uv),
        r.notice is Some == venv_waits(state, uv_found, opt_view(python), ensure_uv),
        r.notice matches Some(n) ==> n@ == "已找到 uv，等待安装页确认后再下载 Python..."@,
{
    let remove_broken = state == VenvState::Broken;
    if state == VenvState::Working {
        return VenvPlan { remove_broken, notice: None, method: VenvMethod::Reuse };
    }
    let mut notice: Option<String> = None;
    if uv_found {
        if !ensure_uv && python.is_none() {
            notice = Some(owned("已找到 uv，等待安装页确认后再下载 Python..."));
        } else {
            let p = match python {
                Some(p) => owned(p),
                None => any_supported_python(),
            };
            return VenvPlan { remove_broken, notice, method: VenvMethod::Uv { python: p } };
        }
    }
    match python {
        Some(p) => {
            if !p.is_empty() {
                return VenvPlan {
                    remove_broken,
                    notice,
                    method: VenvMethod::SystemPython { python: owned(p) },
                };
            }
        },
        None => {},
    }
    if ensure_uv {
        VenvPlan { remove_broken, notice, method: VenvMethod::InstallUv }
    } else {
        VenvPlan { remove_broken, notice, method: VenvMethod::Fail }
    }
}

/// When downloading `uv` is allowed, obtaining the environment never gives up
/// without trying.
pub proof fn law_ensure_uv_never_fails(state: VenvState, uv_found: bool, python: Option<Seq<char>>)
    ensures
        venv_step(state, uv_found, python, true) != VenvStep::Fail,
{
}

/// Before the set-up page confirms (no download allowed) and with no system
/// interpreter known, `uv` is never asked to fetch an interpreter: the plan
/// waits instead, and a working environment is always kept.
pub proof fn law_no_download_before_confirmation(state: VenvState, uv_found: bool)
    ensures
        !(venv_step(state, uv_found, None, false) is Uv),
        !(venv_step(state, uv_found, None, false) is InstallUv),
        uv_found && state != VenvState::Working ==> venv_waits(state, uv_found, None, false),
        venv_step(VenvState::Working, uv_found, None, false) == VenvStep::Reuse,
{
}

/// A working environment is always kept as it is, whatever else was found:
/// it is neither rebuilt (with `uv` or the system interpreter) nor replaced
/// by a download, and nothing waits; a missing or broken one is never kept.
pub proof fn law_working_environment_is_kept(
    state: VenvState,
    uv_found: bool,
    python: Option<Seq<char>>,
    ensure_uv: bool,
)
    ensures
        venv_step(VenvState::Working, uv_found, python, ensure_uv) == VenvStep::Reuse,
        !venv_waits(VenvState::Working, uv_found, python, ensure_uv),
        state != VenvState::Working ==> venv_step(state, uv_found, python, ensure_uv)
            != VenvStep::Reuse,
{
}

/// An environment that is missing or broken is rebuilt with `uv` when it was
/// found and an interpreter is known (that interpreter) or a download is
/// allowed (any Python 3.10+); without `uv`, with a known non-empty system
/// interpreter; failing both, `uv` is downloaded when allowed, and otherwise
/// the set-up fails.
pub proof fn law_rebuild_prefers_uv(
    state: VenvState,
    uv_found: bool,
    python: Option<Seq<char>>,
    ensure_uv: bool,
)
    requires
        state != VenvState::Working,
    ensures
        uv_found && python is Some ==> venv_step(state, uv_found, python, ensure_uv)
            == VenvStep::Uv(python->0),
        uv_found && python is None && ensure_uv ==> venv_step(state, uv_found, python, ensure_uv)
            == VenvStep::Uv(">=3.10"@),
        !uv_found && (python matches Some(p) && p.len() > 0) ==> venv_step(
            state,
            uv_found,
            python,
            ensure_uv,
        ) == VenvStep::SystemPython(python->0),
        !uv_found && !(python matches Some(p) && p.len() > 0) ==> venv_step(
            state,
            uv_found,
            python,
            ensure_uv,
        ) == (if ensure_uv {
            VenvStep::InstallUv
        } else {
            VenvStep::Fail
        }),
        uv_found && python is None && !ensure_uv ==> venv_step(state, uv_found, python, ensure_uv)
            == VenvStep::Fail,
{
}

/// The arguments with which `uv` creates the environment in `dir` for `python`.
pub fn uv_venv_args(dir: &str, python: &str) -> (r: Vec<String>)
    ensures
        r.deep_view() == seq!["venv"@, dir@, "--python"@, python@],
{
    let mut r: Vec<String> = Vec::new();
    push_owned(&mut r, "venv");
    push_owned(&mut r, dir);
    push_owned(&mut r, "--python");
    push_owned(&mut r, python);
    r
}

/// The arguments with which a system interpreter creates the environment in `dir`.
pub fn system_venv_args(dir: &str) -> (r: Vec<String>)
    ensures
        r.deep_view() == seq!["-m"@, "venv"@, dir@],
{
    let mut r: Vec<String> = Vec::new();
    push_owned(&mut r, "-m");
    push_owned(&mut r, "venv");
    push_owned(&mut r, dir);
    r
}

/// The arguments that upgrade pip inside a fresh environment.
pub fn pip_upgrade_args() -> (r: Vec<String>)
    ensures
        r.deep_view() == seq!["-m"@, "pip"@, "install"@, "--upgrade"@, "pip"@],
{
    let mut r: Vec<String> = Vec::new();
    push_owned(&mut r, "-m");
    push_owned(&mut r, "pip");
    push_owned(&mut r, "install");
    push_owned(&mut r, "--upgrade");
    push_owned(&mut r, "pip");
    r
}

/// The program and arguments that fetch the `uv` installer: a PowerShell
/// script on Windows, a shell script (run afterwards by `sh`) elsewhere.
pub fn uv_installer_command(windows: bool) -> (r: (String, Vec<String>))
    ensures
        windows ==> r.0@ == "powershell"@ && r.1.deep_view() == seq![
            "-NoProfile"@,
            "-ExecutionPolicy"@,
            "Bypass"@,
            "-Command"@,
            "irm https://astral.sh/uv/install.ps1 | iex"@,
        ],
        !windows ==> r.0@ == "curl"@ && r.1.deep_view() == seq![
            "-LSf"@,
            "https://astral.sh/uv/install.sh"@,
        ],
{
    let mut args: Vec<String> = Vec::new();
    if windows {
        push_owned(&mut args, "-NoProfile");
        push_owned(&mut args, "-ExecutionPolicy");
        push_owned(&mut args, "Bypass");
        push_owned(&mut args, "-Command");
        push_owned(&mut args, "irm https://astral.sh/uv/install.ps1 | iex");
        (owned("powershell"), args)
    } else {
        push_owned(&mut args, "-LSf");
        push_owned(&mut args, "https://astral.sh/uv/install.sh");
        (owned("curl"), args)
    }
}

// ---------------------------------------------------------------------------
// Installing packages
// ---------------------------------------------------------------------------

/// The package index arguments for the mirror, in the spelling of the
/// installer (`--index-url` for `uv`, `-i` for pip); none without a mirror.
pub open spec fn index_args(mirror_on: bool, pypi_url: Seq<char>, index_flag: Seq<char>) -> Seq<
    Seq<char>,
> {
    if mirror_on {
        seq![index_flag, pypi_url, "--extra-index-url"@, "https://pypi.org/simple/"@]
    } else {
        Seq::empty()
    }
}

fn push_all(r: &mut Vec<String>, items: &[String])
    ensures
        final(r).deep_view() == old(r).deep_view() + items.deep_view(),
{
    let ghost start = r.deep_view();
    let mut i: usize = 0;
    while i < items.len()
        invariant
            i <= items.len(),
            r.deep_view() == start + items.deep_view().take(i as int),
        decreases items.len() - i,
    {
        push_string(r, items[i].clone());
        assert(items.deep_view().take(i + 1) =~= items.deep_view().take(i as int).push(
            items[i as int]@,
        ));
        assert(start + items.deep_view().take(i + 1) =~= (start + items.deep_view().take(
            i as int,
        )).push(items[i as int]@));
        i += 1;
    }
    assert(items.deep_view().take(items.len() as int) =~= items.deep_view());
}

fn push_index_args(r: &mut Vec<String>, mirror: &MirrorConfig, index_flag: &str)
    ensures
        final(r).deep_view() == old(r).deep_view() + index_args(
            mirror.use_mirror,
            mirror.pypi_url@,
            index_flag@,
        ),
{
    let ghost start = r.deep_view();
    if mirror.use_mirror {
        push_owned(r, index_flag);
        push_owned(r, mirror.pypi_url.as_str());
        push_owned(r, "--extra-index-url");
        push_owned(r, "https://pypi.org/simple/");
        assert(r.deep_view() =~= start + index_args(
            mirror.use_mirror,
            mirror.pypi_url@,
            index_flag@,
        ));
    } else {
        assert(r.deep_view() =~= start + index_args(
            mirror.use_mirror,
            mirror.pypi_url@,
            index_flag@,
        ));
    }
}

/// The arguments with which `uv` installs `packages` into the environment
/// of `venv_python`.
pub fn uv_install_args(venv_python: &str, mirror: &MirrorConfig, packages: &[String]) -> (r: Vec<
    String,
>)
    ensures
        r.deep_view() == seq!["pip"@, "install"@, "--python"@, venv_python@] + index_args(
            mirror.use_mirror,
            mirror.pypi_url@,
            "--index-url"@,
        ) + packages.deep_view(),
{
    let mut r: Vec<String> = Vec::new();
    push_owned(&mut r, "pip");
    push_owned(&mut r, "install");
    push_owned(&mut r, "--python");
    push_owned(&mut r, venv_python);
    push_index_args(&mut r, mirror, "--index-url");
    push_all(&mut r, packages);
    r
}

/// The arguments with which pip installs `packages`.
pub fn pip_install_args(mirror: &MirrorConfig, packages: &[String]) -> (r: Vec<String>)
    ensures
        r.deep_view() == seq!["-m"@, "pip"@, "install"@, "--disable-pip-version-check"@]
            + index_args(mirror.use_mirror, mirror.pypi_url@, "-i"@) + packages.deep_view(),
{
    let mut r: Vec<String> = Vec::new();
    push_owned(&mut r, "-m");
    push_owned(&mut r, "pip");
    push_owned(&mut r, "install");
    push_owned(&mut r, "--disable-pip-version-check");
    push_index_args(&mut r, mirror, "-i");
    push_all(&mut r, packages);
    r
}

/// How packages are installed.
#[derive(PartialEq, Eq, Structural, Clone, Copy)]
pub enum InstallRoute {
    /// There is nothing to install.
    Nothing,
    /// `uv` installs them (pip takes over if it fails).
    Uv,
    /// pip installs them.
    Pip,
}

/// How `count` packages are installed: not at all when there are none,
/// with `uv` when it was found, with pip otherwise.
pub fn install_route(count: usize, uv_found: bool) -> (r: InstallRoute)
    ensures
        count == 0 ==> r == InstallRoute::Nothing,
        count > 0 && uv_found ==> r == InstallRoute::Uv,
        count > 0 && !uv_found ==> r == InstallRoute::Pip,
{
    if count == 0 {
        InstallRoute::Nothing
    } else if uv_found {
        InstallRoute::Uv
    } else {
        InstallRoute::Pip
    }
}

/// The progress line shown before `uv` installs `count` packages.
pub fn install_progress_message(count: usize) -> (r: String)
    ensures
        r@ == "正在安装 "@ + decimal(count as nat) + " 个依赖包..."@,
{
    let n = decimal_string(count as u64);
    let mut r = owned("正在安装 ");
    r.append(n.as_str());
    r.append(" 个依赖包...");
    r
}

// ---------------------------------------------------------------------------
// OpenCV conflicts
// ---------------------------------------------------------------------------

/// The Python snippet that lists the installed OpenCV builds that clash with
/// `opencv-contrib-python`, separated by `|`.
pub open spec fn spec_opencv_probe() -> Seq<char> {
    "import importlib.metadata as m; names={'opencv-python','opencv-python-headless'}; found=[n for n in names if any(d.metadata['Name'].lower()==n for d in m.distributions())]; print('|'.join(found))"@
}

/// The arguments that run the OpenCV conflict probe.
pub fn opencv_probe_args() -> (r: Vec<String>)
    ensures
        r.deep_view() == seq!["-c"@, spec_opencv_probe()],
{
    let mut r: Vec<String> = Vec::new();
    push_owned(&mut r, "-c");
    push_owned(
        &mut r,
        "import importlib.metadata as m; names={'opencv-python','opencv-python-headless'}; found=[n for n in names if any(d.metadata['Name'].lower()==n for d in m.distributions())]; print('|'.join(found))",
    );
    r
}

/// The conflicting packages named in the probe's output: the non-empty
/// `|`-separated names of the trimmed output.
pub open spec fn conflicts_spec(output: Seq<char>) -> Seq<Seq<char>> {
    split_on(trimmed(output), '|').filter(|p: Seq<char>| p.len() > 0)
}

/// Reads the conflicting packages out of the probe's output.
pub fn opencv_conflicts(output: &str) -> (r: Vec<String>)
    ensures
        r.deep_view() == conflicts_spec(output@),
{
    let t = trim(output);
    let pieces = split_char(t.as_str(), '|');
    let mut r: Vec<String> = Vec::new();
    let ghost pred = |p: Seq<char>| p.len() > 0;
    let mut i: usize = 0;
    while i < pieces.len()
        invariant
            i <= pieces.len(),
            pieces.deep_view() == split_on(t@, '|'),
            t@ == trimmed(output@),
            pred == (|p: Seq<char>| p.len() > 0),
            r.deep_view() == pieces.deep_view().take(i as int).filter(pred),
        decreases pieces.len() - i,
    {
        let ghost pre = pieces.deep_view().take(i as int);
        proof {
            reveal(Seq::filter);
        }
        assert(pieces.deep_view().take(i + 1).drop_last() =~= pre);
        assert(pieces.deep_view().take(i + 1).last() == pieces[i as int]@);
        let ghost cur = pieces.deep_view().take(i + 1);
        assert(cur.filter(pred) == if pred(cur.last()) {
            cur.drop_last().filter(pred).push(cur.last())
        } else {
            cur.drop_last().filter(pred)
        });
        assert(cur.drop_last() == pre);
        if !pieces[i].as_str().is_empty() {
            assert(pred(cur.last()));
            push_string(&mut r, pieces[i].clone());
            assert(r.deep_view() == cur.filter(pred));
        } else {
            assert(!pred(cur.last()));
            assert(r.deep_view() == cur.filter(pred));
        }
        i += 1;
    }
    assert(pieces.deep_view().take(pieces.len() as int) =~= pieces.deep_view());
    r
}

/// The arguments that uninstall the `conflicts`.
pub fn uninstall_args(conflicts: &[String]) -> (r: Vec<String>)
    ensures
        r.deep_view() == seq!["-m"@, "pip"@, "uninstall"@, "-y"@] + conflicts.deep_view(),
{
    let mut r: Vec<String> = Vec::new();
    push_owned(&mut r, "-m");
    push_owned(&mut r, "pip");
    push_owned(&mut r, "uninstall");
    push_owned(&mut r, "-y");
    push_all(&mut r, conflicts);
    r
}

/// The two commands of the OpenCV repair.
#[derive(PartialEq, Eq, Structural, Clone, Copy)]
pub enum OpencvStep {
    /// Removing the conflicting builds.
    Uninstall,
    /// Reinstalling `opencv-contrib-python`.
    Reinstall,
}

/// The error that starts the message of a failed repair step.
pub open spec fn opencv_step_error(step: OpencvStep) -> Seq<char> {
    match step {
        OpencvStep::Uninstall => "卸载 OpenCV 冲突包失败: "@,
        OpencvStep::Reinstall => "重新安装 opencv-contrib-python 失败: "@,
    }
}

/// The outcome of a repair step: the repair goes on when the command
/// succeeded, and fails with the step's message and the tool's `detail`
/// otherwise, so that the repair only reports success when the conflicting
/// builds are gone and `opencv-contrib-python` is back.
pub fn opencv_step_result(step: OpencvStep, success: bool, detail: &str) -> (r: Result<(), String>)
    ensures
        success ==> r is Ok,
        !success ==> (r matches Err(e) && e@ == opencv_step_error(step) + detail@),
{
    if success {
        Ok(())
    } else {
        match step {
            OpencvStep::Uninstall => Err(concat2("卸载 OpenCV 冲突包失败: ", detail)),
            OpencvStep::Reinstall => Err(concat2("重新安装 opencv-contrib-python 失败: ", detail)),
        }
    }
}

/// The program and arguments that reinstall `opencv-contrib-python`: through
/// `uv` when it was found, otherwise through the environment's pip.
pub fn opencv_reinstall_command(uv: Option<&str>, venv_python: &str) -> (r: (String, Vec<String>))
    ensures
        uv matches Some(u) ==> r.0@ == u@ && r.1.deep_view() == seq![
            "pip"@,
            "install"@,
            "--python"@,
            venv_python@,
            "--force-reinstall"@,
            "--no-deps"@,
            "opencv-contrib-python>=4.9"@,
        ],
        uv is None ==> r.0@ == venv_python@ && r.1.deep_view() == seq![
            "-m"@,
            "pip"@,
            "install"@,
            "--force-reinstall"@,
            "--no-deps"@,
            "opencv-contrib-python>=4.9"@,
        ],
{
    let mut args: Vec<String> = Vec::new();
    let program = match uv {
        Some(u) => {
            push_owned(&mut args, "pip");
            push_owned(&mut args, "install");
            push_owned(&mut args, "--python");
            push_owned(&mut args, venv_python);
            owned(u)
        },
        None => {
            push_owned(&mut args, "-m");
            push_owned(&mut args, "pip");
            push_owned(&mut args, "install");
            owned(venv_python)
        },
    };
    push_owned(&mut args, "--force-reinstall");
    push_owned(&mut args, "--no-deps");
    push_owned(&mut args, "opencv-contrib-python>=4.9");
    (program, args)
}

// ---------------------------------------------------------------------------
// Readiness and the server process
// ---------------------------------------------------------------------------

/// The import check for `modes`: the AI stack when the expert or the tycoon
/// mode is chosen, the core libraries otherwise.
pub open spec fn deps_script_spec(modes: Seq<Seq<char>>) -> Seq<char> {
    if modes.contains("expert"@) || modes.contains("tycoon"@) {
        "import torch; import transformers; import cv2; print('ok')"@
    } else {
        "import cv2; from PIL import Image; import numpy; print('ok')"@
    }
}

/// The import check depends only on which modes are chosen, not on their
/// order or repetition.
pub proof fn law_deps_check_ignores_order(a: Seq<Seq<char>>, b: Seq<Seq<char>>)
    requires
        forall|x: Seq<char>| #[trigger] a.contains(x) <==> b.contains(x),
    ensures
        deps_script_spec(a) == deps_script_spec(b),
{
    assert(a.contains("expert"@) == b.contains("expert"@));
    assert(a.contains("tycoon"@) == b.contains("tycoon"@));
}

/// The import check loads the AI stack (torch, transformers, OpenCV)
/// whenever the expert or the tycoon mode is among the chosen ones, wherever
/// it stands, and the core libraries (OpenCV, Pillow, NumPy) otherwise.
pub proof fn law_deps_check_follows_ai_modes(modes: Seq<Seq<char>>)
    ensures
        modes.contains("expert"@) ==> deps_script_spec(modes)
            == "import torch; import transformers; import cv2; print('ok')"@,
        modes.contains("tycoon"@) ==> deps_script_spec(modes)
            == "import torch; import transformers; import cv2; print('ok')"@,
        !modes.contains("expert"@) && !modes.contains("tycoon"@) ==> deps_script_spec(modes)
            == "import cv2; from PIL import Image; import numpy; print('ok')"@,
{
}

/// The arguments of the import check that tells whether `modes` can run.
pub fn deps_check_args(modes: &[String]) -> (r: Vec<String>)
    ensures
        r.deep_view() == seq!["-c"@, deps_script_spec(modes.deep_view())],
{
    let mut r: Vec<String> = Vec::new();
    push_owned(&mut r, "-c");
    if contains_text(modes, "expert") || contains_text(modes, "tycoon") {
        push_owned(&mut r, "import torch; import transformers; import cv2; print('ok')");
    } else {
        push_owned(&mut r, "import cv2; from PIL import Image; import numpy; print('ok')");
    }
    r
}

/// The application script inside the code directory `dir`.
pub open spec fn spec_app_script(dir: Seq<char>, windows: bool) -> Seq<char> {
    path_join(dir, "app.py"@, windows)
}

/// The application script inside the code directory `dir`.
pub fn app_script_path(dir: &str, windows: bool) -> (r: String)
    requires
        !(windows && is_verbatim(dir@)),
    ensures
        r@ == spec_app_script(dir@, windows),
{
    proof {
        lemma_runtime_names(windows);
        lemma_join_simple(dir@, "app.py"@, windows);
    }
    join_path(dir, "app.py", windows)
}

impl PythonRuntime {
    /// The arguments with which the environment's interpreter runs the
    /// server on `port`, in this runtime's code directory.
    pub fn flask_args(&self, port: u16, windows: bool) -> (r: Vec<String>)
        requires
            !(windows && is_verbatim(self.app_dir@)),
        ensures
            r.deep_view() == seq![
                spec_app_script(self.app_dir@, windows),
                "--port"@,
                decimal(port as nat),
                "--runtime"@,
                "auto"@,
                "--no-browser"@,
            ],
    {
        let mut r: Vec<String> = Vec::new();
        push_string(&mut r, app_script_path(self.app_dir.as_str(), windows));
        push_owned(&mut r, "--port");
        push_string(&mut r, decimal_string(port as u64));
        push_owned(&mut r, "--runtime");
        push_owned(&mut r, "auto");
        push_owned(&mut r, "--no-browser");
        r
    }

    /// The model hub setting for the server process: `HF_ENDPOINT` set to
    /// the mirror when mirrors are used.
    pub fn flask_environment(mirror: &MirrorConfig) -> (r: Option<(String, String)>)
        ensures
            r is Some == mirror.use_mirror,
            r matches Some(kv) ==> kv.0@ == "HF_ENDPOINT"@ && kv.1@ == mirror.hf_url@,
    {
        if mirror.use_mirror {
            Some((owned("HF_ENDPOINT"), mirror.hf_url.clone()))
        } else {
            None
        }
    }
}

// ---------------------------------------------------------------------------
// Bundled resources
// ---------------------------------------------------------------------------

/// Where the bundled code is extracted to inside the data directory.
pub fn extracted_app_dir(app_data_dir: &str, windows: bool) -> (r: String)
    requires
        !(windows && is_verbatim(app_data_dir@)),
    ensures
        r@ == path_join(app_data_dir@, "app"@, windows),
        !(windows && is_verbatim(r@)),
{
    proof {
        lemma_runtime_names(windows);
        lemma_join_simple(app_data_dir@, "app"@, windows);
    }
    join_path(app_data_dir, "app", windows)
}

/// The resources' `_up_` directory (the bundler's name for a parent directory).
pub fn up_dir(resource_dir: &str, windows: bool) -> (r: String)
    requires
        !(windows && is_verbatim(resource_dir@)),
    ensures
        r@ == path_join(resource_dir@, "_up_"@, windows),
        !(windows && is_verbatim(r@)),
{
    proof {
        lemma_runtime_names(windows);
        lemma_join_simple(resource_dir@, "_up_"@, windows);
    }
    join_path(resource_dir, "_up_", windows)
}

/// The directory whose contents are extracted: the `_up_` directory when it
/// holds the application script, the resource directory itself otherwise.
pub fn resource_source_dir(resource_dir: &str, up_has_app: bool, windows: bool) -> (r: String)
    requires
        !(windows && is_verbatim(resource_dir@)),
    ensures
        up_has_app ==> r@ == path_join(resource_dir@, "_up_"@, windows),
        !up_has_app ==> r@ == resource_dir@,
{
    if up_has_app {
        up_dir(resource_dir, windows)
    } else {
        owned(resource_dir)
    }
}

/// The development checkout's root when nothing was extracted: the working
/// directory's parent, or the resource directory when it has none.
pub fn dev_root(cwd_parent: Option<&str>, resource_dir: &str) -> (r: String)
    ensures
        r@ == (match opt_view(cwd_parent) {
            Some(p) => p,
            None => resource_dir@,
        }),
{
    match cwd_parent {
        Some(p) => owned(p),
        None => owned(resource_dir),
    }
}

/// The code directory to fall back on in development: the checkout root when
/// it holds the application script, else the working directory when it does,
/// else none.
pub fn dev_fallback(root: &str, root_has_app: bool, cwd: &str, cwd_has_app: bool) -> (r: Option<
    String,
>)
    ensures
        root_has_app ==> (r matches Some(d) && d@ == root@),
        !root_has_app && cwd_has_app ==> (r matches Some(d) && d@ == cwd@),
        !root_has_app && !cwd_has_app ==> r is None,
{
    if root_has_app {
        Some(owned(root))
    } else if cwd_has_app {
        Some(owned(cwd))
    } else {
        None
    }
}

/// The error when neither a copied, a shipped nor a development copy of the
/// application script was found; `tried` lists the three paths as shown.
pub fn missing_app_message(tried: &str) -> (r: String)
    ensures
        r@ == "未找到 app.py（尝试路径: "@ + tried@ + "）"@,
{
    let mut r = concat2("未找到 app.py（尝试路径: ", tried);
    r.append("）");
    r
}

} // verus!
