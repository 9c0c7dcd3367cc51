//! Environment assessment: recognising a usable Python from its version
//! output, the free space of the disk holding a path, and the disk and
//! memory thresholds that block or warn.

use vstd::prelude::*;
use crate::text::{
    all_digits, capped_digits_value, chars_of, digit_run_end, digits_value, is_digit,
    is_digit_exec, is_prefix, leading_digits, occurs_at, owned, push_owned, starts_with, trim,
    trimmed,
};

verus! {

// ---------------------------------------------------------------------------
// Python
// ---------------------------------------------------------------------------

/// The interpreter names tried on the search path, in order.
pub fn python_candidates() -> (r: Vec<String>)
    ensures
        r.deep_view() == seq!["python3"@, "python"@],
{
    let mut r: Vec<String> = Vec::new();
    push_owned(&mut r, "python3");
    push_owned(&mut r, "python");
    r
}

/// The arguments that ask an interpreter for its version.
pub fn version_args() -> (r: Vec<String>)
    ensures
        r.deep_view() == seq!["--version"@],
{
    let mut r: Vec<String> = Vec::new();
    push_owned(&mut r, "--version");
    r
}

/// At index `i` the version line names Python 3.x with x at least 10: the
/// text `3.` stands there, not as the tail of a longer number (no digit or
/// dot before it), and the number that follows it is at least 10.
pub open spec fn names_python_310_plus_at(v: Seq<char>, i: int) -> bool {
    &&& occurs_at(v, seq!['3', '.'], i)
    &&& (i == 0 || !(is_digit(v[i - 1]) || v[i - 1] == '.'))
    &&& digits_value(leading_digits(v.subrange(i + 2, v.len() as int))) >= 10
}

/// A version line names a supported release: Python 3.10 or later.
pub open spec fn supported_version_spec(v: Seq<char>) -> bool {
    exists|i: int| names_python_310_plus_at(v, i)
}

/// Whether the version line `v` names a supported release.
pub fn is_supported_version(v: &str) -> (r: bool)
    ensures
        r == supported_version_spec(v@),
{
    let cs = chars_of(v);
    let n = cs.len();
    let mut i: usize = 0;
    while i < n
        invariant
            cs@ == v@,
            n == cs.len(),
            i <= n,
            forall|j: int| 0 <= j < i ==> !names_python_310_plus_at(v@, j),
        decreases n - i,
    {
        if cs[i] == '3' && i + 1 < n && cs[i + 1] == '.' && (i == 0 || !(is_digit_exec(cs[i - 1])
            || cs[i - 1] == '.')) {
            assert(cs@.subrange(i as int, i + 2) =~= seq!['3', '.']);
            let e = digit_run_end(&cs, i + 2);
            assert(all_digits(cs@.subrange(i + 2, e as int))) by {
                lemma_leading_digits_are_digits(cs@.subrange(i + 2, n as int));
            }
            match capped_digits_value(&cs, i + 2, e, 10) {
                Some(m) => {
                    if m >= 10 {
                        assert(names_python_310_plus_at(v@, i as int));
                        return true;
                    }
                },
                None => {},
            }
        } else {
            proof {
                if occurs_at(v@, seq!['3', '.'], i as int) {
                    assert(v@.subrange(i as int, i + 2)[0] == '3');
                    assert(v@.subrange(i as int, i + 2)[1] == '.');
                }
            }
        }
        i += 1;
    }
    assert forall|j: int| !names_python_310_plus_at(v@, j) by {
        if j >= n {
            assert(!occurs_at(v@, seq!['3', '.'], j));
        }
    }
    false
}

/// The leading run of digits consists of digits.
pub proof fn lemma_leading_digits_are_digits(s: Seq<char>)
    ensures
        all_digits(leading_digits(s)),
    decreases s.len(),
{
    if s.len() > 0 && is_digit(s[0]) {
        lemma_leading_digits_are_digits(s.drop_first());
        let r = leading_digits(s);
        assert forall|k: int| 0 <= k < r.len() implies is_digit(#[trigger] r[k]) by {
            if k > 0 {
                assert(r[k] == leading_digits(s.drop_first())[k - 1]);
            }
        }
    }
}

/// The version a system interpreter reports, when it is supported: the
/// trimmed standard output, or, when that is empty, the trimmed error output
/// (older interpreters print their version there); nothing when the command
/// failed.
pub open spec fn system_version_spec(success: bool, stdout: Seq<char>, stderr: Seq<char>) -> Option<
    Seq<char>,
> {
    if !success {
        None
    } else if trimmed(stdout).len() == 0 {
        if trimmed(stderr).len() > 0 && supported_version_spec(trimmed(stderr)) {
            Some(trimmed(stderr))
        } else {
            None
        }
    } else if supported_version_spec(trimmed(stdout)) {
        Some(trimmed(stdout))
    } else {
        None
    }
}

/// The supported version reported by a system interpreter's `--version`
/// run, given its success and its (lossily decoded) outputs.
pub fn system_python_version(success: bool, stdout: &str, stderr: &str) -> (r: Option<String>)
    ensures
        r matches Some(v) ==> system_version_spec(success, stdout@, stderr@) == Some(v@),
        r is None ==> system_version_spec(success, stdout@, stderr@) is None,
{
    if !success {
        return None;
    }
    let out = trim(stdout);
    if out.as_str().is_empty() {
        let err = trim(stderr);
        if !err.as_str().is_empty() && is_supported_version(err.as_str()) {
            Some(err)
        } else {
            None
        }
    } else if is_supported_version(out.as_str()) {
        Some(out)
    } else {
        None
    }
}

/// The version the virtual environment's interpreter reports: its trimmed
/// standard output, when the run succeeded and printed something.
pub open spec fn venv_version_spec(success: bool, stdout: Seq<char>) -> Option<Seq<char>> {
    if success && trimmed(stdout).len() > 0 {
        Some(trimmed(stdout))
    } else {
        None
    }
}

/// The version reported by the virtual environment's interpreter.
pub fn venv_python_version(success: bool, stdout: &str) -> (r: Option<String>)
    ensures
        r matches Some(v) ==> venv_version_spec(success, stdout@) == Some(v@),
        r is None ==> venv_version_spec(success, stdout@) is None,
{
    if !success {
        return None;
    }
    let out = trim(stdout);
    if out.as_str().is_empty() {
        None
    } else {
        Some(out)
    }
}

// ---------------------------------------------------------------------------
// Disks
// ---------------------------------------------------------------------------

/// A mounted disk: where it is mounted and how many bytes are available.
pub struct DiskInfo {
    pub mount_point: String,
    pub available_bytes: u64,
}

/// The space available to `path`: that of the first disk (in the listed
/// order) whose mount point is a textual prefix of the path; 0 when none is.
pub open spec fn free_space_spec(path: Seq<char>, disks: Seq<DiskInfo>) -> u64
    decreases disks.len(),
{
    if disks.len() == 0 {
        0
    } else if is_prefix(disks[0].mount_point@, path) {
        disks[0].available_bytes
    } else {
        free_space_spec(path, disks.drop_first())
    }
}

/// The space available to `path` on the listed `disks`.
pub fn free_space_for_path(path: &str, disks: &[DiskInfo]) -> (r: u64)
    ensures
        r == free_space_spec(path@, disks@),
{
    let n = disks.len();
    let mut i: usize = 0;
    assert(disks@.subrange(0, n as int) =~= disks@);
    while i < n
        invariant
            n == disks.len(),
            i <= n,
            free_space_spec(path@, disks@) == free_space_spec(
                path@,
                disks@.subrange(i as int, n as int),
            ),
        decreases n - i,
    {
        let ghost rest = disks@.subrange(i as int, n as int);
        if starts_with(path, disks[i].mount_point.as_str()) {
            return disks[i].available_bytes;
        }
        assert(rest.drop_first() =~= disks@.subrange(i + 1, n as int));
        i += 1;
    }
    0
}

// ---------------------------------------------------------------------------
// Thresholds
// ---------------------------------------------------------------------------

/// One gibibyte.
pub open spec fn gib() -> nat {
    1073741824
}

/// How a resource measures against its two thresholds.
#[derive(PartialEq, Eq, Structural, Clone, Copy)]
pub enum Level {
    /// Below the lower threshold: set-up is blocked.
    Insufficient,
    /// Below the upper threshold: set-up goes on with a warning.
    Tight,
    /// Enough.
    Enough,
}

/// The level of `amount` against the thresholds `low < high`.
pub open spec fn level_of(amount: nat, low: nat, high: nat) -> Level {
    if amount < low {
        Level::Insufficient
    } else if amount < high {
        Level::Tight
    } else {
        Level::Enough
    }
}

/// The result of the environment check.
pub struct Assessment {
    /// No Python 3.10+ was found and no virtual environment exists.
    pub python_missing: bool,
    /// Free disk space: under 1 GiB blocks, under 5 GiB warns.
    pub disk: Level,
    /// Total memory: under 2 GiB blocks, under 4 GiB warns.
    pub memory: Level,
}

/// Assesses the environment. The thresholds are those of the gibibyte
/// figures shown to the user: a byte count divided by 2^30 as a float is
/// below 1.0 (2.0, 4.0, 5.0) exactly when the count is below 1 (2, 4, 5) GiB.
pub fn assess_environment(
    python_found: bool,
    venv_known: bool,
    disk_free_bytes: u64,
    memory_bytes: u64,
) -> (r: Assessment)
    ensures
        r.python_missing == (!python_found && !venv_known),
        r.disk == level_of(disk_free_bytes as nat, gib(), 5 * gib()),
        r.memory == level_of(memory_bytes as nat, 2 * gib(), 4 * gib()),
{
    let disk = if disk_free_bytes < 1073741824 {
        Level::Insufficient
    } else if disk_free_bytes < 5368709120 {
        Level::Tight
    } else {
        Level::Enough
    };
    let memory = if memory_bytes < 2147483648 {
        Level::Insufficient
    } else if memory_bytes < 4294967296 {
        Level::Tight
    } else {
        Level::Enough
    };
    Assessment { python_missing: !python_found && !venv_known, disk, memory }
}

/// The blocking message when no Python was found.
pub fn python_missing_message() -> (r: String)
    ensures
        r@ == "未找到 Python 3.10+。请安装 Python 或稍后通过 uv 自动安装。"@,
{
    owned("未找到 Python 3.10+。请安装 Python 或稍后通过 uv 自动安装。")
}

} // verus!
