//! The self-update procedure: reading the latest commit from the GitHub API
//! reply, deciding between skipping, recording and downloading, and the
//! layout of the downloaded archive.

use vstd::prelude::*;
use vstd::string::StringSliceAdditionalSpecFns;
use vstd::utf8::{decode_utf8, encode_utf8, is_ascii_chars, is_char_boundary};
use crate::modes::{
    is_verbatim, join_path, lemma_join_simple, path_join, InstallState,
    InstallStateView,
};
use crate::text::{
    chars_of, clone_strings, concat2, concat3, contains_text, occurs_at, occurs_at_exec, owned,
    push_owned, string_of_range,
};

verus! {

// ---------------------------------------------------------------------------
// The repository
// ---------------------------------------------------------------------------

/// The GitHub API address of the latest commit on the tracked branch.
pub open spec fn spec_commits_api_url() -> Seq<char> {
    "https://api.github.com/repos/zhaoyue4810/pianke/commits/main"@
}

/// The GitHub API address of the latest commit on the tracked branch.
pub fn commits_api_url() -> (r: String)
    ensures
        r@ == spec_commits_api_url(),
{
    owned("https://api.github.com/repos/zhaoyue4810/pianke/commits/main")
}

/// The `curl` arguments that fetch `url` for the update check.
pub fn commit_request_args(url: &str) -> (r: Vec<String>)
    ensures
        r.deep_view() == seq![
            "-s"@,
            "-H"@,
            "User-Agent: pianke-updater"@,
            "--connect-timeout"@,
            "8"@,
            "--max-time"@,
            "10"@,
            url@,
        ],
{
    let mut r: Vec<String> = Vec::new();
    push_owned(&mut r, "-s");
    push_owned(&mut r, "-H");
    push_owned(&mut r, "User-Agent: pianke-updater");
    push_owned(&mut r, "--connect-timeout");
    push_owned(&mut r, "8");
    push_owned(&mut r, "--max-time");
    push_owned(&mut r, "10");
    push_owned(&mut r, url);
    r
}

/// The address of the source archive of commit `sha`.
pub open spec fn spec_tarball_url(sha: Seq<char>) -> Seq<char> {
    "https://codeload.github.com/zhaoyue4810/pianke/tar.gz/"@ + sha
}

/// The address of the source archive of commit `sha`.
pub fn tarball_url(sha: &str) -> (r: String)
    ensures
        r@ == spec_tarball_url(sha@),
{
    concat2("https://codeload.github.com/zhaoyue4810/pianke/tar.gz/", sha)
}

/// The `curl` arguments that download `url` into `archive_path`.
pub fn download_args(archive_path: &str, url: &str) -> (r: Vec<String>)
    ensures
        r.deep_view() == seq![
            "-sL"@,
            "--connect-timeout"@,
            "15"@,
            "--max-time"@,
            "60"@,
            "-o"@,
            archive_path@,
            url@,
        ],
{
    let mut r: Vec<String> = Vec::new();
    push_owned(&mut r, "-sL");
    push_owned(&mut r, "--connect-timeout");
    push_owned(&mut r, "15");
    push_owned(&mut r, "--max-time");
    push_owned(&mut r, "60");
    push_owned(&mut r, "-o");
    push_owned(&mut r, archive_path);
    push_owned(&mut r, url);
    r
}

// ---------------------------------------------------------------------------
// Reading the commit from the API reply
// ---------------------------------------------------------------------------

/// The key of the commit hash in the API reply, up to its colon.
pub open spec fn sha_key() -> Seq<char> {
    seq!['"', 's', 'h', 'a', '"', ':']
}

/// `c` is JSON whitespace (space, tab, line feed, carriage return).
pub open spec fn is_json_space(c: char) -> bool {
    c == ' ' || c == '\t' || c == '\n' || c == '\r'
}

/// The first index at or after `j` that does not hold JSON whitespace.
pub open spec fn skip_space(s: Seq<char>, j: int) -> int
    decreases s.len() - j,
{
    if 0 <= j < s.len() && is_json_space(s[j]) {
        skip_space(s, j + 1)
    } else {
        j
    }
}

/// A `"sha":` key starts at `i` and, after optional whitespace, its value
/// opens with a quote.
pub open spec fn sha_entry_at(body: Seq<char>, i: int) -> bool {
    &&& occurs_at(body, sha_key(), i)
    &&& skip_space(body, i + 6) < body.len()
    &&& body[skip_space(body, i + 6)] == '"'
}

/// `i` is the first place where a `"sha":` entry with a string value starts.
pub open spec fn first_sha_entry(body: Seq<char>, i: int) -> bool {
    &&& sha_entry_at(body, i)
    &&& forall|j: int| 0 <= j < i ==> !sha_entry_at(body, j)
}

/// The characters of `s` before its first `"` (all of `s` if it has none).
pub open spec fn until_quote(s: Seq<char>) -> Seq<char>
    decreases s.len(),
{
    if s.len() == 0 {
        s
    } else if s[0] == '"' {
        Seq::empty()
    } else {
        seq![s[0]] + until_quote(s.drop_first())
    }
}

/// The commit hash in an API reply: the string value of the first `"sha"`
/// entry (whitespace may follow the colon), read up to its closing quote;
/// none when there is no such entry.
pub open spec fn sha_field(body: Seq<char>) -> Option<Seq<char>> {
    if exists|i: int| first_sha_entry(body, i) {
        let i = choose|i: int| first_sha_entry(body, i);
        Some(until_quote(body.subrange(skip_space(body, i + 6) + 1, body.len() as int)))
    } else {
        None
    }
}

/// There is only one first entry.
proof fn lemma_first_sha_entry_unique(body: Seq<char>, i: int, j: int)
    requires
        first_sha_entry(body, i),
        first_sha_entry(body, j),
    ensures
        i == j,
{
    if i < j {
        assert(!sha_entry_at(body, i));
    } else if j < i {
        assert(!sha_entry_at(body, j));
    }
}

/// The index of the first non-whitespace character of `cs` at or after `j`.
fn skip_spaces(cs: &Vec<char>, j: usize) -> (k: usize)
    requires
        j <= cs.len(),
    ensures
        k == skip_space(cs@, j as int),
        j <= k <= cs.len(),
{
    let mut k = j;
    while k < cs.len() && (cs[k] == ' ' || cs[k] == '\t' || cs[k] == '\n' || cs[k] == '\r')
        invariant
            j <= k <= cs.len(),
            skip_space(cs@, j as int) == skip_space(cs@, k as int),
        decreases cs.len() - k,
    {
        k += 1;
    }
    k
}

/// Reads the commit hash out of the GitHub API reply `body`.
pub fn extract_sha(body: &str) -> (r: Option<String>)
    ensures
        r matches Some(s) ==> sha_field(body@) == Some(s@),
        r is None ==> sha_field(body@) is None,
{
    let cs = chars_of(body);
    let key = key_chars();
    let n = cs.len();
    let mut i: usize = 0;
    while i < n
        invariant
            cs@ == body@,
            key@ == sha_key(),
            n == cs.len(),
            i <= n,
            forall|j: int| 0 <= j < i ==> !sha_entry_at(body@, j),
        decreases n - i,
    {
        if occurs_at_exec(&cs, &key, i) {
            let k = skip_spaces(&cs, i + 6);
            if k < n && cs[k] == '"' {
                assert(first_sha_entry(body@, i as int));
                proof {
                    let j = choose|j: int| first_sha_entry(body@, j);
                    lemma_first_sha_entry_unique(body@, i as int, j);
                }
                return Some(read_until_quote(&cs, k + 1));
            }
        }
        i += 1;
    }
    assert forall|j: int| !first_sha_entry(body@, j) by {
        if j >= n {
            assert(!occurs_at(body@, sha_key(), j));
        }
    }
    None
}

/// The characters of `cs` from `start` up to the next `"`.
fn read_until_quote(cs: &Vec<char>, start: usize) -> (r: String)
    requires
        start <= cs.len(),
    ensures
        r@ == until_quote(cs@.subrange(start as int, cs.len() as int)),
{
    let n = cs.len();
    let mut k = start;
    assert(cs@.subrange(start as int, start as int) =~= Seq::<char>::empty());
    while k < n && cs[k] != '"'
        invariant
            n == cs.len(),
            start <= k <= n,
            until_quote(cs@.subrange(start as int, n as int)) == cs@.subrange(start as int, k as int)
                + until_quote(cs@.subrange(k as int, n as int)),
        decreases n - k,
    {
        let ghost rest = cs@.subrange(k as int, n as int);
        assert(rest.drop_first() =~= cs@.subrange(k + 1, n as int));
        assert(cs@.subrange(start as int, k + 1) =~= cs@.subrange(start as int, k as int) + seq![
            rest[0],
        ]);
        k += 1;
    }
    assert(until_quote(cs@.subrange(k as int, n as int)) =~= Seq::<char>::empty());
    assert(cs@.subrange(start as int, k as int) + Seq::<char>::empty() =~= cs@.subrange(
        start as int,
        k as int,
    ));
    string_of_range(cs, start, k)
}

fn key_chars() -> (r: Vec<char>)
    ensures
        r@ == sha_key(),
{
    let mut r: Vec<char> = Vec::new();
    r.push('"');
    r.push('s');
    r.push('h');
    r.push('a');
    r.push('"');
    r.push(':');
    assert(r@ =~= sha_key());
    r
}

// ---------------------------------------------------------------------------
// Short commit names
// ---------------------------------------------------------------------------

/// The first 8 bytes of `s` end on a character boundary, so that they can be
/// shown as the short commit name.
pub open spec fn has_short_form(s: Seq<char>) -> bool {
    is_char_boundary(encode_utf8(s), 8)
}

/// The text of the first 8 bytes of `s`.
pub open spec fn short_form(s: Seq<char>) -> Seq<char> {
    decode_utf8(encode_utf8(s).subrange(0, 8))
}

/// How the local commit is named: its first 8 bytes when it has as many,
/// otherwise the whole of it.
pub open spec fn local_form(s: Seq<char>) -> Seq<char> {
    if encode_utf8(s).len() >= 8 {
        short_form(s)
    } else {
        s
    }
}

/// The first 8 bytes of `s` (`&s[..8]`).
pub fn short_sha(s: &str) -> (r: String)
    requires
        has_short_form(s@),
    ensures
        r@ == short_form(s@),
{
    broadcast use vstd::utf8::encode_utf8_decode_utf8;

    let (a, _) = s.split_at(8);
    assert(encode_utf8(a@) =~= encode_utf8(s@).subrange(0, 8));
    a.to_owned()
}

/// Whether the first 8 bytes of `s` end on a character boundary.
pub fn can_shorten(s: &str) -> (r: bool)
    ensures
        r == has_short_form(s@),
{
    s.is_char_boundary(8)
}

/// Whether the update check can name the commits it reports on (see
/// `update_names_displayable`).
pub fn can_name_commits(local: &str, remote: Option<&str>) -> (r: bool)
    ensures
        r == update_names_displayable(local@, opt_text(remote)),
{
    broadcast use vstd::utf8::encode_utf8_valid_utf8;

    match remote {
        None => true,
        Some(rs) => {
            if !rs.is_char_boundary(8) {
                return false;
            }
            let downloads = !crate::text::str_eq(local, rs) && !local.is_empty();
            if downloads && !local.is_char_boundary(8) {
                let b = local.as_bytes();
                return b.len() < 8;
            }
            true
        },
    }
}

/// How the local commit `s` is named in messages.
pub fn local_sha_display(s: &str) -> (r: String)
    requires
        encode_utf8(s@).len() >= 8 ==> has_short_form(s@),
    ensures
        r@ == local_form(s@),
{
    broadcast use vstd::utf8::encode_utf8_valid_utf8;

    if s.is_char_boundary(8) {
        assert(encode_utf8(s@).len() >= 8);
        short_sha(s)
    } else {
        owned(s)
    }
}

// ---------------------------------------------------------------------------
// The update decision
// ---------------------------------------------------------------------------

/// The kinds of outcome of an update check.
pub enum UpdateKind {
    Unreachable,
    UpToDate,
    RecordOnly,
    Download,
}

/// The update check's decision for the local commit `local` and the latest
/// remote commit `remote` (none when it could not be read).
pub open spec fn update_decision(local: Seq<char>, remote: Option<Seq<char>>) -> UpdateKind {
    match remote {
        None => UpdateKind::Unreachable,
        Some(r) => if local == r {
            UpdateKind::UpToDate
        } else if local.len() == 0 {
            UpdateKind::RecordOnly
        } else {
            UpdateKind::Download
        },
    }
}

/// The inputs on which the update check can name the commits: the remote
/// commit's first 8 bytes, and, when a download is due, the local commit's
/// first 8 bytes when it has that many, end on character boundaries.
pub open spec fn update_names_displayable(local: Seq<char>, remote: Option<Seq<char>>) -> bool {
    match remote {
        None => true,
        Some(r) => {
            &&& has_short_form(r)
            &&& (update_decision(local, remote) == UpdateKind::Download && encode_utf8(local).len()
                >= 8) ==> has_short_form(local)
        },
    }
}

/// What the update check does next, with the status line it shows.
pub enum UpdatePlan {
    /// The remote commit could not be read: nothing to do.
    Unreachable { message: String },
    /// The local commit is the latest: nothing to do.
    UpToDate { message: String },
    /// First run: record the remote commit as the current one, download nothing.
    RecordOnly { message: String, commit_sha: String },
    /// A newer commit exists: download its archive from `url` and apply it.
    Download { message: String, commit_sha: String, url: String },
}

/// The kind of an update plan.
pub open spec fn plan_kind(p: UpdatePlan) -> UpdateKind {
    match p {
        UpdatePlan::Unreachable { .. } => UpdateKind::Unreachable,
        UpdatePlan::UpToDate { .. } => UpdateKind::UpToDate,
        UpdatePlan::RecordOnly { .. } => UpdateKind::RecordOnly,
        UpdatePlan::Download { .. } => UpdateKind::Download,
    }
}

/// The status line of an update plan.
pub open spec fn plan_message(p: UpdatePlan) -> Seq<char> {
    match p {
        UpdatePlan::Unreachable { message } => message@,
        UpdatePlan::UpToDate { message } => message@,
        UpdatePlan::RecordOnly { message, .. } => message@,
        UpdatePlan::Download { message, .. } => message@,
    }
}

/// The status line the update check shows for its decision.
pub open spec fn update_message(local: Seq<char>, remote: Option<Seq<char>>) -> Seq<char> {
    match remote {
        None => "无法连接 GitHub 检查更新，跳过"@,
        Some(r) => if local == r {
            "已是最新版本（"@ + short_form(r) + "）"@
        } else if local.len() == 0 {
            "标记当前版本为 "@ + short_form(r)
        } else {
            "发现新版本 "@ + short_form(r) + "（当前 "@ + local_form(local) + "），正在下载..."@
        },
    }
}

/// The text of an optional string.
pub open spec fn opt_text(o: Option<&str>) -> Option<Seq<char>> {
    match o {
        Some(s) => Some(s@),
        None => None,
    }
}

/// Decides what the update check does, given the local commit and the
/// latest remote commit (none when it could not be read).
pub fn plan_update(local: &str, remote: Option<&str>) -> (r: UpdatePlan)
    requires
        update_names_displayable(local@, opt_text(remote)),
    ensures
        plan_kind(r) == update_decision(local@, opt_text(remote)),
        plan_message(r) == update_message(local@, opt_text(remote)),
        r matches UpdatePlan::RecordOnly { commit_sha, .. } ==> remote matches Some(s) && commit_sha@
            == s@,
        r matches UpdatePlan::Download { commit_sha, url, .. } ==> remote matches Some(s)
            && commit_sha@ == s@ && url@ == spec_tarball_url(s@),
{
    match remote {
        None => UpdatePlan::Unreachable { message: owned("无法连接 GitHub 检查更新，跳过") },
        Some(rs) => {
            let short = short_sha(rs);
            if crate::text::str_eq(local, rs) {
                UpdatePlan::UpToDate { message: concat3("已是最新版本（", short.as_str(), "）") }
            } else if local.is_empty() {
                UpdatePlan::RecordOnly {
                    message: concat2("标记当前版本为 ", short.as_str()),
                    commit_sha: owned(rs),
                }
            } else {
                let shown = local_sha_display(local);
                let mut message = concat3("发现新版本 ", short.as_str(), "（当前 ");
                message.append(shown.as_str());
                message.append("），正在下载...");
                UpdatePlan::Download { message, commit_sha: owned(rs), url: tarball_url(rs) }
            }
        },
    }
}

/// The stored state with `sha` recorded as the current commit.
pub open spec fn with_commit(state: InstallStateView, sha: Seq<char>) -> InstallStateView {
    InstallStateView { commit_sha: sha, ..state }
}

/// The stored state with `sha` recorded as the current commit.
pub fn record_commit(state: &InstallState, sha: &str) -> (r: InstallState)
    ensures
        r@ == with_commit(state@, sha@),
{
    InstallState {
        modes: clone_strings(state.modes.as_slice()),
        packages_sig: state.packages_sig.clone(),
        commit_sha: owned(sha),
    }
}

/// What the update check saves of the stored state `state`, given the latest
/// remote commit (none when it could not be read) and whether the downloaded
/// archive was applied: the remote commit is recorded on a first run, and
/// after a download only once the archive has been applied; otherwise
/// nothing is saved.
pub open spec fn saved_state(state: InstallStateView, remote: Option<Seq<char>>, applied: bool) -> Option<
    InstallStateView,
> {
    match remote {
        None => None,
        Some(r) => match update_decision(state.commit_sha, remote) {
            UpdateKind::RecordOnly => Some(with_commit(state, r)),
            UpdateKind::Download => if applied {
                Some(with_commit(state, r))
            } else {
                None
            },
            _ => None,
        },
    }
}

/// The state to save after the update check (see `saved_state`), if any.
pub fn state_after_update(state: &InstallState, remote: Option<&str>, applied: bool) -> (r: Option<
    InstallState,
>)
    ensures
        r is Some == saved_state(state@, opt_text(remote), applied) is Some,
        r matches Some(s) ==> saved_state(state@, opt_text(remote), applied) == Some(s@),
{
    match remote {
        None => None,
        Some(rs) => {
            if crate::text::str_eq(state.commit_sha.as_str(), rs) {
                None
            } else if state.commit_sha.as_str().is_empty() || applied {
                Some(record_commit(state, rs))
            } else {
                None
            }
        },
    }
}

/// The status line after updating to commit `sha`.
pub fn updated_message(sha: &str) -> (r: String)
    requires
        has_short_form(sha@),
    ensures
        r@ == "已更新到版本 "@ + short_form(sha@),
{
    let short = short_sha(sha);
    concat2("已更新到版本 ", short.as_str())
}

/// The status line when the download failed with `error`.
pub fn download_failed_message(error: &str) -> (r: String)
    ensures
        r@ == "下载失败: "@ + error@,
{
    concat2("下载失败: ", error)
}

/// The status line when the download left no archive behind.
pub fn download_missing_message() -> (r: String)
    ensures
        r@ == "下载失败：文件未创建"@,
{
    owned("下载失败：文件未创建")
}

/// The status line when applying the update failed with `error`.
pub fn update_failed_message(error: &str) -> (r: String)
    ensures
        r@ == "更新失败: "@ + error@,
{
    concat2("更新失败: ", error)
}

// ---------------------------------------------------------------------------
// Applying a downloaded archive
// ---------------------------------------------------------------------------

/// Where the archive is downloaded to inside the code directory.
pub fn update_archive_path(app_dir: &str, windows: bool) -> (r: String)
    requires
        !(windows && is_verbatim(app_dir@)),
    ensures
        r@ == path_join(app_dir@, ".update.tar.gz"@, windows),
{
    proof {
        reveal_strlit(".update.tar.gz");
        lemma_join_simple(app_dir@, ".update.tar.gz"@, windows);
    }
    join_path(app_dir, ".update.tar.gz", windows)
}

/// Where the archive is unpacked inside the code directory.
pub fn update_unpack_dir(app_dir: &str, windows: bool) -> (r: String)
    requires
        !(windows && is_verbatim(app_dir@)),
    ensures
        r@ == path_join(app_dir@, ".update_tmp"@, windows),
{
    proof {
        reveal_strlit(".update_tmp");
        lemma_join_simple(app_dir@, ".update_tmp"@, windows);
    }
    join_path(app_dir, ".update_tmp", windows)
}

/// The `tar` arguments that unpack `archive_path` into `dir`.
pub fn unpack_args(archive_path: &str, dir: &str) -> (r: Vec<String>)
    ensures
        r.deep_view() == seq!["-xzf"@, archive_path@, "-C"@, dir@],
{
    let mut r: Vec<String> = Vec::new();
    push_owned(&mut r, "-xzf");
    push_owned(&mut r, archive_path);
    push_owned(&mut r, "-C");
    push_owned(&mut r, dir);
    r
}

/// The entries of the code directory that an update leaves alone.
pub open spec fn preserved_names() -> Seq<Seq<char>> {
    seq![".venv"@, ".pic_selecter_install.json"@, "models"@, "__pycache__"@, ".git"@]
}

/// Whether an update leaves the entry `name` of the code directory alone.
pub fn is_preserved(name: &str) -> (r: bool)
    ensures
        r == preserved_names().contains(name@),
{
    let mut names: Vec<String> = Vec::new();
    push_owned(&mut names, ".venv");
    push_owned(&mut names, ".pic_selecter_install.json");
    push_owned(&mut names, "models");
    push_owned(&mut names, "__pycache__");
    push_owned(&mut names, ".git");
    assert(names.deep_view() =~= preserved_names());
    contains_text(names.as_slice(), name)
}

/// The directory holding the new code: the archive must unpack into exactly
/// one top-level directory, `dirs` being the directories it unpacked into.
pub fn archive_root(dirs: &[String]) -> (r: Result<String, String>)
    ensures
        dirs.len() == 1 ==> (r matches Ok(d) && d@ == dirs[0]@),
        dirs.len() != 1 ==> (r matches Err(e) && e@ == "更新包结构异常"@),
{
    if dirs.len() == 1 {
        Ok(dirs[0].clone())
    } else {
        Err(owned("更新包结构异常"))
    }
}

/// The error when unpacking failed with the tool's message `detail`.
pub fn unpack_failed_message(detail: &str) -> (r: String)
    ensures
        r@ == "解压失败: "@ + detail@,
{
    concat2("解压失败: ", detail)
}

// ---------------------------------------------------------------------------
// Laws
// ---------------------------------------------------------------------------

/// Once a commit has been recorded (on the first run or after an update),
/// the next check against the same remote commit finds the code up to date.
pub proof fn law_recorded_commit_is_current(state: InstallStateView, sha: Seq<char>)
    ensures
        update_decision(with_commit(state, sha).commit_sha, Some(sha)) == UpdateKind::UpToDate,
{
}

/// A first run (no local commit) never downloads: it only records the
/// remote commit, or finds nothing to do.
pub proof fn law_first_run_never_downloads(remote: Option<Seq<char>>)
    ensures
        update_decision(Seq::empty(), remote) != UpdateKind::Download,
{
}

/// The commit hash is read back exactly from a reply of the form
/// `prefix "sha": "HASH" rest` (any JSON whitespace, or none, after the
/// colon), when neither the prefix nor the hash holds a double quote.
#[verifier::spinoff_prover]
#[verifier::rlimit(30)]
pub proof fn law_sha_read_back(prefix: Seq<char>, space: Seq<char>, sha: Seq<char>, rest: Seq<char>)
    requires
        !prefix.contains('"'),
        forall|k: int| 0 <= k < space.len() ==> is_json_space(#[trigger] space[k]),
        !sha.contains('"'),
    ensures
        sha_field(prefix + sha_key() + space + seq!['"'] + sha + seq!['"'] + rest) == Some(sha),
{
    let body = prefix + sha_key() + space + seq!['"'] + sha + seq!['"'] + rest;
    let p = prefix.len() as int;
    let q = p + 6 + space.len();
    assert(body.subrange(p, p + 6) =~= sha_key());
    lemma_skip_space_run(body, p + 6, q);
    assert(body[q] == '"');
    assert(sha_entry_at(body, p));
    assert forall|j: int| 0 <= j < p implies !sha_entry_at(body, j) by {
        if occurs_at(body, sha_key(), j) {
            assert(body.subrange(j, j + 6)[0] == sha_key()[0]);
            assert(body[j] == prefix[j]);
        }
    }
    assert(first_sha_entry(body, p));
    let i = choose|i: int| first_sha_entry(body, i);
    lemma_first_sha_entry_unique(body, i, p);
    let tail = body.subrange(q + 1, body.len() as int);
    assert(tail =~= sha + (seq!['"'] + rest));
    lemma_until_quote_prefix(sha, seq!['"'] + rest);
}

/// The update check never touches the stored modes or package signature,
/// and it stores a new commit only when that is the remote commit and the
/// code is either recorded for the first time or was updated by applying
/// the downloaded archive.
pub proof fn law_commit_saved_only_after_apply(
    state: InstallStateView,
    remote: Option<Seq<char>>,
    applied: bool,
)
    ensures
        saved_state(state, remote, applied) matches Some(s) ==> {
            &&& s.modes == state.modes
            &&& s.packages_sig == state.packages_sig
            &&& remote == Some(s.commit_sha)
            &&& s.commit_sha != state.commit_sha
            &&& (state.commit_sha.len() == 0 || applied)
        },
{
}

/// A remote commit whose first 8 bytes end on a character boundary (as a
/// 40-digit hexadecimal hash does) and an ASCII local commit can always be
/// named, whatever the decision.
pub proof fn law_ascii_commits_can_be_named(local: Seq<char>, remote: Seq<char>)
    requires
        has_short_form(remote),
        is_ascii_chars(local),
    ensures
        update_names_displayable(local, Some(remote)),
{
    let b = encode_utf8(local);
    vstd::utf8::encode_utf8_valid_utf8(local);
    vstd::utf8::is_ascii_chars_encode_utf8(local);
    if b.len() == 8 {
        vstd::utf8::is_char_boundary_start_end_of_seq(b);
    } else if b.len() > 8 {
        vstd::utf8::is_char_boundary_iff_not_is_continuation_byte(b, 8);
        assert(local[8] as u8 == b[8]);
        assert('\0' <= local[8] <= '\u{7f}');
        assert((local[8] as u32) < 0x80);
        assert(!vstd::utf8::is_continuation_byte(b[8]));
    }
}

/// `skip_space` passes over a run of whitespace that ends before a
/// non-whitespace character.
proof fn lemma_skip_space_run(s: Seq<char>, j: int, q: int)
    requires
        0 <= j <= q < s.len(),
        forall|k: int| j <= k < q ==> is_json_space(s[k]),
        !is_json_space(s[q]),
    ensures
        skip_space(s, j) == q,
    decreases q - j,
{
    if j < q {
        lemma_skip_space_run(s, j + 1, q);
    }
}

/// `until_quote` stops at the quote that follows a quote-free prefix.
proof fn lemma_until_quote_prefix(a: Seq<char>, b: Seq<char>)
    requires
        !a.contains('"'),
        b.len() > 0,
        b[0] == '"',
    ensures
        until_quote(a + b) == a,
    decreases a.len(),
{
    if a.len() == 0 {
        assert(a + b =~= b);
    } else {
        assert((a + b).drop_first() =~= a.drop_first() + b);
        assert(a[0] != '"');
        assert(!a.drop_first().contains('"')) by {
            if a.drop_first().contains('"') {
                let k = choose|k: int| 0 <= k < a.drop_first().len() && a.drop_first()[k] == '"';
                assert(a[k + 1] == '"');
            }
        }
        lemma_until_quote_prefix(a.drop_first(), b);
        assert(seq![a[0]] + a.drop_first() =~= a);
    }
}

} // verus!
