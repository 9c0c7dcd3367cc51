//! The set-up commands' decisions: the run mode, which stored modes start
//! automatically, and how a request to install modes is checked and planned.

use vstd::prelude::*;
use crate::modes::{
    is_known_mode, mode_catalogue, mode_keys, packages_for_modes, packages_signature, packages_spec,
    signature_of, InstallState, InstallStateView,
};
use crate::text::{clone_strings, concat2, decimal, decimal_string, owned, str_eq};

verus! {

// ---------------------------------------------------------------------------
// Run mode
// ---------------------------------------------------------------------------

/// The run mode: `bundled` when the application script was found next to the
/// resources or in the code directory, `dev` otherwise.
pub open spec fn spec_run_mode(app_script_found: bool) -> Seq<char> {
    if app_script_found {
        "bundled"@
    } else {
        "dev"@
    }
}

/// The run mode for whether the application script was found.
pub fn run_mode(app_script_found: bool) -> (r: String)
    ensures
        r@ == spec_run_mode(app_script_found),
{
    if app_script_found {
        owned("bundled")
    } else {
        owned("dev")
    }
}

/// The status line that announces the run mode.
pub fn run_mode_status(mode: &str) -> (r: String)
    ensures
        r@ == "运行模式: "@ + mode@,
{
    concat2("运行模式: ", mode)
}

/// The status lines of the initial set-up.
#[derive(PartialEq, Eq, Structural, Clone, Copy)]
pub enum SetupNotice {
    /// No environment yet: trying to obtain one.
    InstallingPython,
    /// The environment was built.
    PythonReady,
    /// The update check begins.
    CheckingUpdates,
    /// The update check is skipped for want of an environment.
    SkippingUpdates,
}

/// The text of a status line of the initial set-up.
pub open spec fn setup_notice_text(n: SetupNotice) -> Seq<char> {
    match n {
        SetupNotice::InstallingPython => "未找到 Python，正在尝试通过 uv 安装..."@,
        SetupNotice::PythonReady => "Python 环境已就绪"@,
        SetupNotice::CheckingUpdates => "正在检查更新..."@,
        SetupNotice::SkippingUpdates => "跳过更新检查（Python 环境未就绪）"@,
    }
}

/// The text of a status line of the initial set-up.
pub fn setup_notice(n: SetupNotice) -> (r: String)
    ensures
        r@ == setup_notice_text(n),
{
    match n {
        SetupNotice::InstallingPython => owned("未找到 Python，正在尝试通过 uv 安装..."),
        SetupNotice::PythonReady => owned("Python 环境已就绪"),
        SetupNotice::CheckingUpdates => owned("正在检查更新..."),
        SetupNotice::SkippingUpdates => owned("跳过更新检查（Python 环境未就绪）"),
    }
}

/// The status line when the environment could not be built, with `detail`.
pub fn python_setup_failed_message(detail: &str) -> (r: String)
    ensures
        r@ == "Python 环境创建失败: "@ + detail@,
{
    concat2("Python 环境创建失败: ", detail)
}

/// Whether the run mode asks for an update check.
pub fn checks_for_updates(mode: &str) -> (r: bool)
    ensures
        r == (mode@ == "bundled"@),
{
    str_eq(mode, "bundled")
}

// ---------------------------------------------------------------------------
// Automatic start
// ---------------------------------------------------------------------------

/// The stored state can start without the set-up page, once the installed
/// packages are confirmed to import: some modes were chosen, the virtual
/// environment exists, and the stored signature is the one of the package
/// list those modes need now.
pub open spec fn auto_start_candidate_spec(state: InstallStateView, venv_ready: bool) -> bool {
    &&& state.modes.len() > 0
    &&& venv_ready
    &&& state.packages_sig == signature_of(packages_spec(state.modes))
}

/// Whether the stored state may start automatically, so that the installed
/// packages are worth probing.
pub fn auto_start_candidate(state: &InstallState, venv_ready: bool) -> (r: bool)
    ensures
        r == auto_start_candidate_spec(state@, venv_ready),
{
    if state.modes.len() == 0 || !venv_ready {
        return false;
    }
    let packages = packages_for_modes(state.modes.as_slice());
    let sig = packages_signature(&packages);
    sig == state.packages_sig
}

/// The modes to start with right away: the stored ones when the state is a
/// candidate and the packages were found ready, otherwise none.
pub fn auto_start_modes(state: &InstallState, venv_ready: bool, deps_ready: bool) -> (r: Option<
    Vec<String>,
>)
    ensures
        r is Some <==> auto_start_candidate_spec(state@, venv_ready) && deps_ready,
        r matches Some(m) ==> m.deep_view() == state@.modes,
{
    if auto_start_candidate(state, venv_ready) && deps_ready {
        Some(clone_strings(state.modes.as_slice()))
    } else {
        None
    }
}

// ---------------------------------------------------------------------------
// Set-up requests
// ---------------------------------------------------------------------------

/// The first of `modes` that is not a known mode key.
pub open spec fn first_unknown(modes: Seq<Seq<char>>) -> Option<Seq<char>>
    decreases modes.len(),
{
    if modes.len() == 0 {
        None
    } else if !mode_keys().contains(modes[0]) {
        Some(modes[0])
    } else {
        first_unknown(modes.drop_first())
    }
}

/// The refusal of a set-up request, if any: the first unknown mode, then an
/// empty choice, then a missing Python environment.
pub open spec fn setup_refusal(modes: Seq<Seq<char>>, venv_ready: bool) -> Option<Seq<char>> {
    match first_unknown(modes) {
        Some(m) => Some("未知模式: "@ + m),
        None => if modes.len() == 0 {
            Some("请至少选择一个模式"@)
        } else if !venv_ready {
            Some("无法找到 Python，请安装 Python 3.10+ 或安装 uv"@)
        } else {
            None
        },
    }
}

/// Checks a request to set up `modes`; the error is the message shown.
pub fn check_setup_request(modes: &[String], venv_ready: bool) -> (r: Result<(), String>)
    ensures
        r is Ok <==> setup_refusal(modes.deep_view(), venv_ready) is None,
        r matches Err(e) ==> setup_refusal(modes.deep_view(), venv_ready) == Some(e@),
{
    let n = modes.len();
    let mut i: usize = 0;
    assert(modes.deep_view().subrange(0, n as int) =~= modes.deep_view());
    while i < n
        invariant
            n == modes.len(),
            i <= n,
            first_unknown(modes.deep_view()) == first_unknown(
                modes.deep_view().subrange(i as int, n as int),
            ),
        decreases n - i,
    {
        let ghost rest = modes.deep_view().subrange(i as int, n as int);
        assert(rest[0] == modes[i as int]@);
        if !is_known_mode(modes[i].as_str()) {
            return Err(concat2("未知模式: ", modes[i].as_str()));
        }
        assert(rest.drop_first() =~= modes.deep_view().subrange(i + 1, n as int));
        i += 1;
    }
    assert(modes.deep_view().subrange(n as int, n as int) =~= Seq::<Seq<char>>::empty());
    if n == 0 {
        return Err(owned("请至少选择一个模式"));
    }
    if !venv_ready {
        return Err(owned("无法找到 Python，请安装 Python 3.10+ 或安装 uv"));
    }
    Ok(())
}

/// What a set-up request installs and records.
pub struct SetupPlan {
    pub packages: Vec<String>,
    pub packages_sig: String,
    pub install_state: InstallState,
    pub signature_changed: bool,
}

/// The plan for setting up `modes`, given the stored state: the package list,
/// its signature, the state to store (the new modes and signature, the stored
/// commit) and whether the signature differs from the stored one.
pub fn plan_setup(modes: &[String], saved: &InstallState) -> (r: SetupPlan)
    ensures
        r.packages.deep_view() == packages_spec(modes.deep_view()),
        r.packages_sig@ == signature_of(packages_spec(modes.deep_view())),
        r.install_state@ == (InstallStateView {
            modes: modes.deep_view(),
            packages_sig: signature_of(packages_spec(modes.deep_view())),
            commit_sha: saved@.commit_sha,
        }),
        r.signature_changed == (saved@.packages_sig != signature_of(
            packages_spec(modes.deep_view()),
        )),
{
    let packages = packages_for_modes(modes);
    let packages_sig = packages_signature(&packages);
    let signature_changed = !(saved.packages_sig == packages_sig);
    let install_state = InstallState {
        modes: clone_strings(modes),
        packages_sig: packages_sig.clone(),
        commit_sha: saved.commit_sha.clone(),
    };
    SetupPlan { packages, packages_sig, install_state, signature_changed }
}

/// The notice shown before installing `count` packages.
pub fn install_notice(count: usize) -> (r: String)
    ensures
        r@ == "准备安装 "@ + decimal(count as nat) + " 个依赖包（首次可能需要几分钟）..."@,
{
    let n = decimal_string(count as u64);
    let mut r = owned("准备安装 ");
    r.append(n.as_str());
    r.append(" 个依赖包（首次可能需要几分钟）...");
    r
}

// ---------------------------------------------------------------------------
// Laws
// ---------------------------------------------------------------------------

/// The state that a set-up stores lets the next start begin without the
/// set-up page: for any non-empty choice of modes and any stored commit, the
/// stored state is an automatic-start candidate once the environment exists.
pub proof fn law_setup_enables_auto_start(modes: Seq<Seq<char>>, commit_sha: Seq<char>)
    requires
        modes.len() > 0,
    ensures
        auto_start_candidate_spec(
            InstallStateView {
                modes,
                packages_sig: signature_of(packages_spec(modes)),
                commit_sha,
            },
            true,
        ),
{
}

/// The package list depends on the chosen modes only through whether the
/// expert and the tycoon mode are among them: order, repetition and the fast
/// mode make no difference.
pub proof fn law_packages_depend_on_membership(a: Seq<Seq<char>>, b: Seq<Seq<char>>)
    requires
        a.contains("expert"@) == b.contains("expert"@),
        a.contains("tycoon"@) == b.contains("tycoon"@),
    ensures
        packages_spec(a) == packages_spec(b),
{
}

/// Every package list starts with the core packages, whatever the modes.
pub proof fn law_core_packages_first(modes: Seq<Seq<char>>)
    ensures
        packages_spec(modes).subrange(0, 9) == crate::modes::core_packages(),
{
    assert(packages_spec(modes).subrange(0, 9) =~= crate::modes::core_packages());
}

/// The one OpenCV build the package lists install.
pub open spec fn opencv_package() -> Seq<char> {
    "opencv-contrib-python>=4.9"@
}

/// Whether the package name `p` starts with `opencv`.
pub open spec fn names_opencv(p: Seq<char>) -> bool {
    p.len() >= 6 && p.take(6) == "opencv"@
}

/// The fourteen package names, with their first characters spelled out, so
/// that any two of them can be told apart.
proof fn lemma_package_names()
    ensures
        crate::modes::core_packages() + crate::modes::vision_packages()
            + crate::modes::expert_packages() + crate::modes::tycoon_packages()
            =~= seq![
            "Pillow>=10.0"@,
            "pillow-heif>=0.16"@,
            "numpy>=1.26"@,
            "scipy>=1.11"@,
            "flask>=3.0"@,
            "imagehash>=4.3"@,
            "opencv-contrib-python>=4.9"@,
            "rawpy>=0.18"@,
            "piexif>=1.1.3"@,
            "transformers>=4.40"@,
            "insightface>=0.7"@,
            "pyiqa>=0.1.10"@,
            "timm>=0.9"@,
            "openai>=1.40"@,
        ],
        "Pillow>=10.0"@.len() == 12 && "Pillow>=10.0"@[0] == 'P',
        "pillow-heif>=0.16"@.len() == 17 && "pillow-heif>=0.16"@[0] == 'p',
        "numpy>=1.26"@.len() == 11 && "numpy>=1.26"@[0] == 'n',
        "scipy>=1.11"@.len() == 11 && "scipy>=1.11"@[0] == 's',
        "flask>=3.0"@.len() == 10 && "flask>=3.0"@[0] == 'f',
        "imagehash>=4.3"@.len() == 14 && "imagehash>=4.3"@[0] == 'i',
        "opencv-contrib-python>=4.9"@.len() == 26 && names_opencv("opencv-contrib-python>=4.9"@),
        "rawpy>=0.18"@.len() == 11 && "rawpy>=0.18"@[0] == 'r',
        "piexif>=1.1.3"@.len() == 13 && "piexif>=1.1.3"@[0] == 'p' && "piexif>=1.1.3"@[1] == 'i',
        "transformers>=4.40"@.len() == 18 && "transformers>=4.40"@[0] == 't',
        "insightface>=0.7"@.len() == 16 && "insightface>=0.7"@[0] == 'i',
        "pyiqa>=0.1.10"@.len() == 13 && "pyiqa>=0.1.10"@[0] == 'p' && "pyiqa>=0.1.10"@[1] == 'y',
        "timm>=0.9"@.len() == 9 && "timm>=0.9"@[0] == 't',
        "openai>=1.40"@.len() == 12 && "openai>=1.40"@[0] == 'o' && "openai>=1.40"@[4] == 'a',
        "opencv"@.len() == 6 && "opencv"@[0] == 'o' && "opencv"@[4] == 'c',
{
    reveal_strlit("Pillow>=10.0");
    reveal_strlit("pillow-heif>=0.16");
    reveal_strlit("numpy>=1.26");
    reveal_strlit("scipy>=1.11");
    reveal_strlit("flask>=3.0");
    reveal_strlit("imagehash>=4.3");
    reveal_strlit("opencv-contrib-python>=4.9");
    reveal_strlit("rawpy>=0.18");
    reveal_strlit("piexif>=1.1.3");
    reveal_strlit("transformers>=4.40");
    reveal_strlit("insightface>=0.7");
    reveal_strlit("pyiqa>=0.1.10");
    reveal_strlit("timm>=0.9");
    reveal_strlit("openai>=1.40");
    reveal_strlit("opencv");
    assert("opencv-contrib-python>=4.9"@.take(6) =~= "opencv"@);
}

/// Every package list holds no name twice, starts with the nine core
/// packages, has 9, 12, 13 or 14 names, and holds exactly one OpenCV build:
/// `opencv-contrib-python>=4.9`.
#[verifier::rlimit(50)]
pub proof fn law_package_list_shape(modes: Seq<Seq<char>>)
    ensures
        packages_spec(modes).no_duplicates(),
        packages_spec(modes).take(9) == crate::modes::core_packages(),
        packages_spec(modes).len() == 9 || packages_spec(modes).len() == 12
            || packages_spec(modes).len() == 13 || packages_spec(modes).len() == 14,
        packages_spec(modes).contains(opencv_package()),
        forall|i: int|
            0 <= i < packages_spec(modes).len() ==> (names_opencv(#[trigger] packages_spec(modes)[i])
                <==> packages_spec(modes)[i] == opencv_package()),
{
    lemma_package_names();
    let r = packages_spec(modes);
    let all = crate::modes::core_packages() + crate::modes::vision_packages()
        + crate::modes::expert_packages() + crate::modes::tycoon_packages();
    assert(r.take(9) =~= crate::modes::core_packages());
    assert(r[6] == opencv_package());
    // Every name in the list is one of the fourteen, at increasing places.
    let expert = modes.contains("expert"@);
    let tycoon = modes.contains("tycoon"@);
    let f = |i: int|
        if i < 9 {
            i
        } else if expert || tycoon {
            if i < 11 {
                i
            } else if expert {
                i
            } else {
                i + 2
            }
        } else {
            i + 4
        };
    assert forall|i: int| 0 <= i < r.len() implies 0 <= #[trigger] f(i) < 14 && r[i] == all[f(i)] by {}
    assert forall|i: int, j: int| 0 <= i < r.len() && 0 <= j < r.len() && i != j implies r[i]
        != r[j] by {
        assert(f(i) != f(j));
        let a = all[f(i)];
        let b = all[f(j)];
        if a == b {
            assert(a.len() == b.len());
            assert(a[0] == b[0]);
            assert(a[1] == b[1]);
        }
    }
    assert forall|i: int| 0 <= i < r.len() implies (names_opencv(#[trigger] r[i]) <==> r[i]
        == opencv_package()) by {
        assert(0 <= f(i) < 14 && r[i] == all[f(i)]);
        let a = all[f(i)];
        if names_opencv(a) {
            assert(a.take(6)[0] == 'o');
            assert(a.take(6)[4] == 'c');
            assert(a[0] == 'o' && a[4] == 'c');
            let k = f(i);
            if k == 6 {
            } else if k == 0 {
                assert(a[0] == 'P');
            } else if k == 1 {
                assert(a[0] == 'p');
            } else if k == 2 {
                assert(a[0] == 'n');
            } else if k == 3 {
                assert(a[0] == 's');
            } else if k == 4 {
                assert(a[0] == 'f');
            } else if k == 5 {
                assert(a[0] == 'i');
            } else if k == 7 {
                assert(a[0] == 'r');
            } else if k == 8 {
                assert(a[0] == 'p');
            } else if k == 9 {
                assert(a[0] == 't');
            } else if k == 10 {
                assert(a[0] == 'i');
            } else if k == 11 {
                assert(a[0] == 'p');
            } else if k == 12 {
                assert(a[0] == 't');
            } else if k == 13 {
                assert(a[4] == 'a');
            }
            assert(f(i) == 6);
        }
    }
}

/// A stored state starts automatically only when its stored signature is,
/// character for character, the signature of the package list its modes
/// need now; some modes were chosen and the environment exists.
pub proof fn law_auto_start_needs_current_signature(state: InstallStateView, venv_ready: bool)
    ensures
        auto_start_candidate_spec(state, venv_ready) ==> state.packages_sig == signature_of(
            packages_spec(state.modes),
        ) && state.modes.len() > 0 && venv_ready,
{
}

/// Any other stored signature (an older package list, for example) keeps
/// the stored modes from starting automatically.
pub proof fn law_stale_signature_never_starts(
    modes: Seq<Seq<char>>,
    sig: Seq<char>,
    commit_sha: Seq<char>,
    venv_ready: bool,
)
    requires
        sig != signature_of(packages_spec(modes)),
    ensures
        !auto_start_candidate_spec(
            (InstallStateView { modes, packages_sig: sig, commit_sha }),
            venv_ready,
        ),
{
}

/// The import check loads the AI stack exactly when the package list
/// installs it (`transformers`), so that readiness is judged on what was
/// installed.
pub proof fn law_deps_check_matches_packages(modes: Seq<Seq<char>>)
    ensures
        (crate::runtime::deps_script_spec(modes)
            == "import torch; import transformers; import cv2; print('ok')"@) <==> packages_spec(
            modes,
        ).contains("transformers>=4.40"@),
{
    lemma_package_names();
    reveal_strlit("import torch; import transformers; import cv2; print('ok')");
    reveal_strlit("import cv2; from PIL import Image; import numpy; print('ok')");
    let r = packages_spec(modes);
    let torch = "import torch; import transformers; import cv2; print('ok')"@;
    let core = "import cv2; from PIL import Image; import numpy; print('ok')"@;
    assert(torch[7] != core[7]);
    if modes.contains("expert"@) || modes.contains("tycoon"@) {
        assert(r[9] == "transformers>=4.40"@);
    } else {
        assert(r =~= crate::modes::core_packages());
        if r.contains("transformers>=4.40"@) {
            let k = choose|k: int| 0 <= k < r.len() && r[k] == "transformers>=4.40"@;
            assert(r[k].len() == 18);
            assert(false);
        }
    }
}

/// `f` maps each element of `a` to an equal element of `b`, keeping order.
pub open spec fn embeds<A>(a: Seq<A>, b: Seq<A>, f: spec_fn(int) -> int) -> bool {
    &&& forall|i: int| 0 <= i < a.len() ==> 0 <= #[trigger] f(i) < b.len() && a[i] == b[f(i)]
    &&& forall|i: int, j: int| 0 <= i < j < a.len() ==> #[trigger] f(i) < #[trigger] f(j)
}

/// `a` is a subsequence of `b`: `b` holds the elements of `a` in order,
/// possibly with others between them.
pub open spec fn is_subsequence<A>(a: Seq<A>, b: Seq<A>) -> bool {
    exists|f: spec_fn(int) -> int| embeds(a, b, f)
}

/// Every sequence is a subsequence of itself, and the empty one of any.
proof fn lemma_subsequence_trivial<A>(a: Seq<A>, b: Seq<A>)
    ensures
        is_subsequence(a, a),
        is_subsequence(Seq::<A>::empty(), b),
{
    let id = |i: int| i;
    assert(embeds(a, a, id));
    assert(embeds(Seq::<A>::empty(), b, id));
}

/// Subsequences of two sequences concatenate to a subsequence of their
/// concatenation.
proof fn lemma_subsequence_concat<A>(a1: Seq<A>, b1: Seq<A>, a2: Seq<A>, b2: Seq<A>)
    requires
        is_subsequence(a1, b1),
        is_subsequence(a2, b2),
    ensures
        is_subsequence(a1 + a2, b1 + b2),
{
    let f1 = choose|f: spec_fn(int) -> int| embeds(a1, b1, f);
    let f2 = choose|f: spec_fn(int) -> int| embeds(a2, b2, f);
    let n1 = a1.len() as int;
    let m1 = b1.len() as int;
    let f = |i: int| if i < n1 { f1(i) } else { m1 + f2(i - n1) };
    let a = a1 + a2;
    let b = b1 + b2;
    assert forall|i: int| 0 <= i < a.len() implies 0 <= #[trigger] f(i) < b.len() && a[i] == b[f(i)] by {
        if i < n1 {
            assert(0 <= f1(i) < m1 && a1[i] == b1[f1(i)]);
        } else {
            assert(0 <= f2(i - n1) < b2.len() && a2[i - n1] == b2[f2(i - n1)]);
        }
    }
    assert forall|i: int, j: int| 0 <= i < j < a.len() implies #[trigger] f(i) < #[trigger] f(j) by {
        if j < n1 {
            assert(f1(i) < f1(j));
        } else if i < n1 {
            assert(f1(i) < m1);
            assert(0 <= f2(j - n1));
        } else {
            assert(f2(i - n1) < f2(j - n1));
        }
    }
    assert(embeds(a, b, f));
}

/// An optional block of packages is contained in another when it is
/// included whenever the first is.
proof fn lemma_optional_block(block: Seq<Seq<char>>, c1: bool, c2: bool)
    requires
        c1 ==> c2,
    ensures
        is_subsequence(
            if c1 { block } else { Seq::<Seq<char>>::empty() },
            if c2 { block } else { Seq::<Seq<char>>::empty() },
        ),
{
    lemma_subsequence_trivial(block, if c2 { block } else { Seq::<Seq<char>>::empty() });
    lemma_subsequence_trivial(Seq::<Seq<char>>::empty(), if c2 { block } else { Seq::<Seq<char>>::empty() });
}

/// Choosing more modes never takes a package away or reorders the list: when
/// every mode of `m1` is also in `m2`, the packages for `m1` appear, in the
/// same order, among the packages for `m2`.
pub proof fn law_more_modes_more_packages(m1: Seq<Seq<char>>, m2: Seq<Seq<char>>)
    requires
        forall|k: int| 0 <= k < 3 && m1.contains(#[trigger] mode_keys()[k]) ==> m2.contains(mode_keys()[k]),
    ensures
        is_subsequence(packages_spec(m1), packages_spec(m2)),
{
    assert(mode_keys()[1] == "expert"@);
    assert(mode_keys()[2] == "tycoon"@);
    let e1 = m1.contains("expert"@);
    let t1 = m1.contains("tycoon"@);
    let e2 = m2.contains("expert"@);
    let t2 = m2.contains("tycoon"@);
    assert(e1 ==> e2);
    assert(t1 ==> t2);
    let core = crate::modes::core_packages();
    lemma_subsequence_trivial(core, core);
    lemma_optional_block(crate::modes::vision_packages(), e1 || t1, e2 || t2);
    lemma_optional_block(crate::modes::expert_packages(), e1, e2);
    lemma_optional_block(crate::modes::tycoon_packages(), t1, t2);
    let v1 = if e1 || t1 { crate::modes::vision_packages() } else { Seq::<Seq<char>>::empty() };
    let v2 = if e2 || t2 { crate::modes::vision_packages() } else { Seq::<Seq<char>>::empty() };
    let x1 = if e1 { crate::modes::expert_packages() } else { Seq::<Seq<char>>::empty() };
    let x2 = if e2 { crate::modes::expert_packages() } else { Seq::<Seq<char>>::empty() };
    let y1 = if t1 { crate::modes::tycoon_packages() } else { Seq::<Seq<char>>::empty() };
    let y2 = if t2 { crate::modes::tycoon_packages() } else { Seq::<Seq<char>>::empty() };
    lemma_subsequence_concat(core, core, v1, v2);
    lemma_subsequence_concat(core + v1, core + v2, x1, x2);
    lemma_subsequence_concat(core + v1 + x1, core + v2 + x2, y1, y2);
    assert(packages_spec(m1) == core + v1 + x1 + y1);
    assert(packages_spec(m2) == core + v2 + x2 + y2);
}

/// `key` is the key of one of the modes that the mode list offers.
pub open spec fn offered(previous: Seq<Seq<char>>, key: Seq<char>) -> bool {
    exists|k: int| 0 <= k < 3 && #[trigger] mode_catalogue(previous)[k].key == key
}

/// A set-up request (with at least one mode, once the environment exists) is
/// accepted exactly when each of its modes is the key of a mode that the mode
/// list offers.
pub proof fn law_accepted_modes_are_offered(
    modes: Seq<Seq<char>>,
    previous: Seq<Seq<char>>,
    venv_ready: bool,
)
    requires
        modes.len() > 0,
        venv_ready,
    ensures
        setup_refusal(modes, venv_ready) is None <==> forall|i: int|
            0 <= i < modes.len() ==> offered(previous, #[trigger] modes[i]),
{
    lemma_first_unknown(modes);
    let cat = mode_catalogue(previous);
    assert(cat[0].key == mode_keys()[0]);
    assert(cat[1].key == mode_keys()[1]);
    assert(cat[2].key == mode_keys()[2]);
    assert forall|m: Seq<char>| offered(previous, m) <==> mode_keys().contains(m) by {
        if mode_keys().contains(m) {
            let k = choose|k: int| 0 <= k < mode_keys().len() && mode_keys()[k] == m;
            assert(cat[k].key == m);
        }
        if offered(previous, m) {
            let k = choose|k: int| 0 <= k < 3 && #[trigger] cat[k].key == m;
            assert(mode_keys()[k] == m);
        }
    }
}

/// `first_unknown` finds nothing exactly when every mode is known.
pub proof fn lemma_first_unknown(modes: Seq<Seq<char>>)
    ensures
        first_unknown(modes) is None <==> forall|i: int|
            0 <= i < modes.len() ==> mode_keys().contains(#[trigger] modes[i]),
    decreases modes.len(),
{
    if modes.len() > 0 {
        lemma_first_unknown(modes.drop_first());
        if first_unknown(modes) is None {
            assert forall|i: int| 0 <= i < modes.len() implies mode_keys().contains(
                #[trigger] modes[i],
            ) by {
                if i > 0 {
                    assert(modes[i] == modes.drop_first()[i - 1]);
                }
            }
        }
        if forall|i: int| 0 <= i < modes.len() ==> mode_keys().contains(#[trigger] modes[i]) {
            assert(mode_keys().contains(modes[0]));
            assert forall|i: int| 0 <= i < modes.drop_first().len() implies mode_keys().contains(
                #[trigger] modes.drop_first()[i],
            ) by {
                assert(modes.drop_first()[i] == modes[i + 1]);
            }
        }
    }
}

} // verus!
