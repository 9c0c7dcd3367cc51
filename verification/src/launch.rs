//! The launch of the server after a set-up request, as a state machine: the
//! shell performs each action (installing, starting, sleeping, probing,
//! reporting) and hands back what came of it; this module decides what comes
//! next. Installing, starting, the start-up wait and the health monitor run
//! in this order, each only after the one before it succeeded.

use vstd::prelude::*;
use crate::server::{
    failure_limit, server_url, spec_server_url, timed_out_spec, unresponsive_message,
    wait_timeout_message,
};
use crate::setup::install_notice;
use crate::text::{concat2, decimal, owned};

verus! {

/// Where the launch stands.
#[derive(PartialEq, Eq, Structural, Clone, Copy)]
pub enum LaunchState {
    /// The packages are being installed.
    Installing,
    /// The server process is being started.
    Starting,
    /// Waiting for the server: the time since the wait began is due.
    Waiting,
    /// Waiting for the server: the result of a probe is due.
    Probing,
    /// The server answered; the health monitor runs, with the number of
    /// failed probes in a row.
    Monitoring { failures: u32 },
    /// The launch failed or the server was given up on; nothing follows.
    Finished,
}

/// What the shell reports back after performing an action.
pub enum LaunchEvent {
    /// The packages were installed, or failed to with `error`.
    Installed { error: Option<String> },
    /// The server process was started, or failed to with `error`.
    Started { error: Option<String> },
    /// The time since the start-up wait began.
    Clock { elapsed_nanos: u128 },
    /// Whether the server answered a probe.
    Probe { up: bool },
}

/// What the shell does next.
pub enum LaunchAction {
    /// Show `status`, then install the packages.
    Install { status: String },
    /// Show `notice` as the status if there is one, then start the server.
    Start { notice: Option<String> },
    /// Show `notice` as the status if there is one, sleep `pause_millis`,
    /// then report the time since the start-up wait began.
    CheckClock { notice: Option<String>, pause_millis: u64 },
    /// Probe the server now.
    Probe,
    /// Announce that the server is ready at `url` and show it; then sleep
    /// the health interval and probe.
    Ready { url: String },
    /// Sleep the health interval, then probe.
    Watch,
    /// Report `message` as the set-up error; nothing follows.
    Fail { message: String },
    /// Nothing to do: the event does not belong to the current state.
    Idle,
}

/// The kinds of action, for stating what a sequence of steps does.
#[derive(PartialEq, Eq, Structural, Clone, Copy)]
pub enum ActionKind {
    Install,
    Start,
    CheckClock,
    Probe,
    Ready,
    Watch,
    Fail,
    Idle,
}

/// The kind of an action.
pub open spec fn kind_of(a: LaunchAction) -> ActionKind {
    match a {
        LaunchAction::Install { .. } => ActionKind::Install,
        LaunchAction::Start { .. } => ActionKind::Start,
        LaunchAction::CheckClock { .. } => ActionKind::CheckClock,
        LaunchAction::Probe => ActionKind::Probe,
        LaunchAction::Ready { .. } => ActionKind::Ready,
        LaunchAction::Watch => ActionKind::Watch,
        LaunchAction::Fail { .. } => ActionKind::Fail,
        LaunchAction::Idle => ActionKind::Idle,
    }
}

/// The start-up wait's limit, in seconds.
pub open spec fn startup_timeout() -> u64 {
    180
}

/// The state that follows `s` on the event `e`.
pub open spec fn next_state(s: LaunchState, e: LaunchEvent) -> LaunchState {
    match s {
        LaunchState::Installing => match e {
            LaunchEvent::Installed { error } => if error is None {
                LaunchState::Starting
            } else {
                LaunchState::Finished
            },
            _ => s,
        },
        LaunchState::Starting => match e {
            LaunchEvent::Started { error } => if error is None {
                LaunchState::Waiting
            } else {
                LaunchState::Finished
            },
            _ => s,
        },
        LaunchState::Waiting => match e {
            LaunchEvent::Clock { elapsed_nanos } => if timed_out_spec(
                elapsed_nanos,
                startup_timeout(),
            ) {
                LaunchState::Finished
            } else {
                LaunchState::Probing
            },
            _ => s,
        },
        LaunchState::Probing => match e {
            LaunchEvent::Probe { up } => if up {
                LaunchState::Monitoring { failures: 0 }
            } else {
                LaunchState::Waiting
            },
            _ => s,
        },
        LaunchState::Monitoring { failures } => match e {
            LaunchEvent::Probe { up } => if up {
                LaunchState::Monitoring { failures: 0 }
            } else if failures + 1 >= failure_limit() {
                LaunchState::Finished
            } else {
                LaunchState::Monitoring { failures: (failures + 1) as u32 }
            },
            _ => s,
        },
        LaunchState::Finished => s,
    }
}

/// The kind of action that follows the event `e` in the state `s`.
pub open spec fn next_kind(s: LaunchState, e: LaunchEvent) -> ActionKind {
    match s {
        LaunchState::Installing => match e {
            LaunchEvent::Installed { error } => if error is None {
                ActionKind::Start
            } else {
                ActionKind::Fail
            },
            _ => ActionKind::Idle,
        },
        LaunchState::Starting => match e {
            LaunchEvent::Started { error } => if error is None {
                ActionKind::CheckClock
            } else {
                ActionKind::Fail
            },
            _ => ActionKind::Idle,
        },
        LaunchState::Waiting => match e {
            LaunchEvent::Clock { elapsed_nanos } => if timed_out_spec(
                elapsed_nanos,
                startup_timeout(),
            ) {
                ActionKind::Fail
            } else {
                ActionKind::Probe
            },
            _ => ActionKind::Idle,
        },
        LaunchState::Probing => match e {
            LaunchEvent::Probe { up } => if up {
                ActionKind::Ready
            } else {
                ActionKind::CheckClock
            },
            _ => ActionKind::Idle,
        },
        LaunchState::Monitoring { failures } => match e {
            LaunchEvent::Probe { up } => if !up && failures + 1 >= failure_limit() {
                ActionKind::Fail
            } else {
                ActionKind::Watch
            },
            _ => ActionKind::Idle,
        },
        LaunchState::Finished => ActionKind::Idle,
    }
}

/// The status shown when the packages are already in place.
pub open spec fn deps_ready_notice() -> Seq<char> {
    "依赖已就绪，正在启动服务..."@
}

/// The status shown while waiting for the server.
pub open spec fn waiting_notice() -> Seq<char> {
    "等待服务就绪..."@
}

/// The first state and action of a launch: the packages are installed first
/// when their signature changed or they are not importable, otherwise the
/// server is started at once.
pub fn launch_begin(signature_changed: bool, deps_ready: bool, package_count: usize) -> (r: (
    LaunchState,
    LaunchAction,
))
    ensures
        (signature_changed || !deps_ready) ==> r.0 == LaunchState::Installing && (r.1 matches LaunchAction::Install { status }
            && status@ == "准备安装 "@ + decimal(package_count as nat)
            + " 个依赖包（首次可能需要几分钟）..."@),
        !(signature_changed || !deps_ready) ==> r.0 == LaunchState::Starting && (r.1 matches LaunchAction::Start { notice }
            && (notice matches Some(n) && n@ == deps_ready_notice())),
{
    if signature_changed || !deps_ready {
        (LaunchState::Installing, LaunchAction::Install { status: install_notice(package_count) })
    } else {
        (LaunchState::Starting, LaunchAction::Start { notice: Some(owned("依赖已就绪，正在启动服务...")) })
    }
}

/// One step of the launch: the state and action that follow the event `e`
/// in the state `s`, for the server on `port`.
pub fn launch_step(s: LaunchState, e: LaunchEvent, port: u16) -> (r: (LaunchState, LaunchAction))
    ensures
        r.0 == next_state(s, e),
        kind_of(r.1) == next_kind(s, e),
        r.1 matches LaunchAction::Ready { url } ==> url@ == spec_server_url(port),
        r.1 matches LaunchAction::CheckClock { notice, pause_millis } ==> {
            &&& s == LaunchState::Starting ==> (pause_millis == 0 && (notice matches Some(n) && n@
                == waiting_notice()))
            &&& s == LaunchState::Probing ==> (pause_millis == 500 && notice is None)
        },
        r.1 matches LaunchAction::Fail { message } ==> (match e {
            LaunchEvent::Installed { error } => error matches Some(d) && message@ == "依赖安装失败: "@
                + d@,
            LaunchEvent::Started { error } => error matches Some(d) && message@ == "无法启动服务: "@
                + d@,
            LaunchEvent::Clock { .. } => message@ == "服务启动超时: "@ + ("Flask 服务在 "@ + decimal(
                startup_timeout() as nat,
            ) + " 秒内未响应"@),
            LaunchEvent::Probe { .. } => message@ == "Flask 服务已无响应，请重启应用"@,
        }),
{
    match s {
        LaunchState::Installing => match e {
            LaunchEvent::Installed { error } => match error {
                None => (LaunchState::Starting, LaunchAction::Start { notice: None }),
                Some(d) => (
                    LaunchState::Finished,
                    LaunchAction::Fail { message: concat2("依赖安装失败: ", d.as_str()) },
                ),
            },
            _ => (s, LaunchAction::Idle),
        },
        LaunchState::Starting => match e {
            LaunchEvent::Started { error } => match error {
                None => (
                    LaunchState::Waiting,
                    LaunchAction::CheckClock {
                        notice: Some(owned("等待服务就绪...")),
                        pause_millis: 0,
                    },
                ),
                Some(d) => (
                    LaunchState::Finished,
                    LaunchAction::Fail { message: concat2("无法启动服务: ", d.as_str()) },
                ),
            },
            _ => (s, LaunchAction::Idle),
        },
        LaunchState::Waiting => match e {
            LaunchEvent::Clock { elapsed_nanos } => {
                if crate::server::wait_timed_out(elapsed_nanos, 180) {
                    let m = wait_timeout_message(180);
                    (
                        LaunchState::Finished,
                        LaunchAction::Fail { message: concat2("服务启动超时: ", m.as_str()) },
                    )
                } else {
                    (LaunchState::Probing, LaunchAction::Probe)
                }
            },
            _ => (s, LaunchAction::Idle),
        },
        LaunchState::Probing => match e {
            LaunchEvent::Probe { up } => {
                if up {
                    (LaunchState::Monitoring { failures: 0 }, LaunchAction::Ready { url: server_url(port) })
                } else {
                    (LaunchState::Waiting, LaunchAction::CheckClock { notice: None, pause_millis: 500 })
                }
            },
            _ => (s, LaunchAction::Idle),
        },
        LaunchState::Monitoring { failures } => match e {
            LaunchEvent::Probe { up } => {
                if up {
                    (LaunchState::Monitoring { failures: 0 }, LaunchAction::Watch)
                } else if failures >= 2 {
                    (LaunchState::Finished, LaunchAction::Fail { message: unresponsive_message() })
                } else {
                    (LaunchState::Monitoring { failures: failures + 1 }, LaunchAction::Watch)
                }
            },
            _ => (s, LaunchAction::Idle),
        },
        LaunchState::Finished => (s, LaunchAction::Idle),
    }
}

// ---------------------------------------------------------------------------
// Runs
// ---------------------------------------------------------------------------

/// The state after the events `es`, one step each, from `s`.
pub open spec fn state_after(s: LaunchState, es: Seq<LaunchEvent>) -> LaunchState
    decreases es.len(),
{
    if es.len() == 0 {
        s
    } else {
        next_state(state_after(s, es.drop_last()), es.last())
    }
}

/// The kind of action that answers the event `es[i]` of a run from `s`.
pub open spec fn kind_at(s: LaunchState, es: Seq<LaunchEvent>, i: int) -> ActionKind {
    next_kind(state_after(s, es.take(i)), es[i])
}

/// The event `e` reports on what the state `s` asked for: installing,
/// starting, the clock or a probe; a finished launch asks for nothing.
pub open spec fn answers(s: LaunchState, e: LaunchEvent) -> bool {
    match s {
        LaunchState::Installing => e is Installed,
        LaunchState::Starting => e is Started,
        LaunchState::Waiting => e is Clock,
        LaunchState::Probing => e is Probe,
        LaunchState::Monitoring { .. } => e is Probe,
        LaunchState::Finished => false,
    }
}

/// A run in which the shell reports, each time, on what it was asked to do.
pub open spec fn faithful_run(s: LaunchState, es: Seq<LaunchEvent>) -> bool {
    forall|k: int| 0 <= k < es.len() ==> #[trigger] answers(state_after(s, es.take(k)), es[k])
}

/// A launch begins by installing or by starting the server.
pub open spec fn is_beginning(s: LaunchState) -> bool {
    s == LaunchState::Installing || s == LaunchState::Starting
}

proof fn lemma_state_after_step(s: LaunchState, es: Seq<LaunchEvent>, n: int)
    requires
        0 <= n < es.len(),
    ensures
        state_after(s, es.take(n + 1)) == next_state(state_after(s, es.take(n)), es[n]),
{
    assert(es.take(n + 1).drop_last() =~= es.take(n));
}

/// After the server was announced ready, the launch only monitors it or has
/// finished.
proof fn lemma_after_ready(s: LaunchState, es: Seq<LaunchEvent>, i: int, n: int)
    requires
        0 <= i < n <= es.len(),
        kind_at(s, es, i) == ActionKind::Ready,
    ensures
        state_after(s, es.take(n)) is Monitoring || state_after(s, es.take(n)) is Finished,
    decreases n,
{
    lemma_state_after_step(s, es, n - 1);
    if n > i + 1 {
        lemma_after_ready(s, es, i, n - 1);
    }
}

/// The server is announced ready at most once in a run.
pub proof fn law_ready_at_most_once(s: LaunchState, es: Seq<LaunchEvent>, i: int, j: int)
    requires
        0 <= i < j < es.len(),
        kind_at(s, es, i) == ActionKind::Ready,
    ensures
        kind_at(s, es, j) != ActionKind::Ready,
{
    lemma_after_ready(s, es, i, j);
}

/// The server process was started without error.
pub open spec fn started_ok(e: LaunchEvent) -> bool {
    e == LaunchEvent::Started { error: None }
}

/// A probe that the server did not answer.
pub open spec fn failed_probe(e: LaunchEvent) -> bool {
    e == LaunchEvent::Probe { up: false }
}

/// A probe that the server answered.
pub open spec fn answered_probe(e: LaunchEvent) -> bool {
    e == LaunchEvent::Probe { up: true }
}

/// A look at the clock within the start-up wait's limit.
pub open spec fn clock_within_limit(e: LaunchEvent) -> bool {
    e matches LaunchEvent::Clock { elapsed_nanos } && !timed_out_spec(
        elapsed_nanos,
        startup_timeout(),
    )
}

/// One of the first `n` events started the server without error.
pub open spec fn started_before(es: Seq<LaunchEvent>, n: int) -> bool {
    exists|k: int| 0 <= k < n && #[trigger] started_ok(es[k])
}

/// The launch has got as far as the start-up wait.
pub open spec fn past_start(st: LaunchState) -> bool {
    st is Waiting || st is Probing || st is Monitoring
}

/// The `f` events before the `n`-th are failed probes.
pub open spec fn failures_before(es: Seq<LaunchEvent>, n: int, f: int) -> bool {
    forall|m: int| n - f <= m < n ==> #[trigger] failed_probe(es[m])
}

proof fn lemma_start_precedes_wait(s: LaunchState, es: Seq<LaunchEvent>, n: int)
    requires
        is_beginning(s),
        faithful_run(s, es),
        0 <= n <= es.len(),
    ensures
        past_start(state_after(s, es.take(n))) ==> started_before(es, n),
        state_after(s, es.take(n)) is Probing ==> (n >= 1 && clock_within_limit(es[n - 1])
            && started_before(es, n - 1)),
    decreases n,
{
    if n == 0 {
        assert(es.take(0) =~= Seq::<LaunchEvent>::empty());
    } else {
        lemma_start_precedes_wait(s, es, n - 1);
        lemma_state_after_step(s, es, n - 1);
        assert(answers(state_after(s, es.take(n - 1)), es[n - 1]));
        if started_ok(es[n - 1]) {
            assert(started_before(es, n));
        }
        if started_before(es, n - 1) {
            let k = choose|k: int| 0 <= k < n - 1 && #[trigger] started_ok(es[k]);
            assert(started_ok(es[k]));
        }
    }
}

/// The server is announced ready only after it was started without error,
/// the start-up wait had not run out at the last look at the clock, and the
/// probe that followed it was answered.
pub proof fn law_ready_follows_start_and_wait(s: LaunchState, es: Seq<LaunchEvent>, i: int)
    requires
        is_beginning(s),
        faithful_run(s, es),
        0 <= i < es.len(),
        kind_at(s, es, i) == ActionKind::Ready,
    ensures
        answered_probe(es[i]),
        i >= 1,
        clock_within_limit(es[i - 1]),
        started_before(es, i - 1),
{
    lemma_start_precedes_wait(s, es, i);
}

proof fn lemma_monitor_counts(s: LaunchState, es: Seq<LaunchEvent>, i: int, n: int)
    requires
        faithful_run(s, es),
        0 <= i < n <= es.len(),
        kind_at(s, es, i) == ActionKind::Ready,
    ensures
        state_after(s, es.take(n)) matches LaunchState::Monitoring { failures } ==> (failures <= n
            - i - 1 && failures_before(es, n, failures as int)),
    decreases n,
{
    lemma_state_after_step(s, es, n - 1);
    if n > i + 1 {
        lemma_monitor_counts(s, es, i, n - 1);
        lemma_after_ready(s, es, i, n - 1);
        assert(answers(state_after(s, es.take(n - 1)), es[n - 1]));
    }
}

/// Once the server was announced ready, the launch reports an error only
/// after three failed probes in a row, all after the announcement; an
/// answered probe starts the count again.
pub proof fn law_three_failures_before_giving_up(
    s: LaunchState,
    es: Seq<LaunchEvent>,
    i: int,
    j: int,
)
    requires
        faithful_run(s, es),
        0 <= i < j < es.len(),
        kind_at(s, es, i) == ActionKind::Ready,
        kind_at(s, es, j) == ActionKind::Fail,
    ensures
        j >= i + 3,
        failed_probe(es[j]),
        failed_probe(es[j - 1]),
        failed_probe(es[j - 2]),
{
    lemma_after_ready(s, es, i, j);
    lemma_monitor_counts(s, es, i, j);
    assert(answers(state_after(s, es.take(j)), es[j]));
}

/// The kind of action after looking at the clock `elapsed_nanos` into the
/// start-up wait.
pub open spec fn kind_on_clock(elapsed_nanos: u128) -> ActionKind {
    next_kind(LaunchState::Waiting, LaunchEvent::Clock { elapsed_nanos })
}

/// The kind of action after a probe during the start-up wait.
pub open spec fn kind_on_wait_probe(up: bool) -> ActionKind {
    next_kind(LaunchState::Probing, LaunchEvent::Probe { up })
}

/// The state after a probe during the start-up wait.
pub open spec fn state_on_wait_probe(up: bool) -> LaunchState {
    next_state(LaunchState::Probing, LaunchEvent::Probe { up })
}

/// The start-up wait ends at the first answered probe, with the server
/// announced ready, or at the first look at the clock past the limit, with
/// the time-out error; a silent probe within the limit waits on.
pub proof fn law_wait_outcome(elapsed_nanos: u128, up: bool)
    ensures
        timed_out_spec(elapsed_nanos, startup_timeout()) ==> kind_on_clock(elapsed_nanos)
            == ActionKind::Fail,
        !timed_out_spec(elapsed_nanos, startup_timeout()) ==> kind_on_clock(elapsed_nanos)
            == ActionKind::Probe,
        up ==> kind_on_wait_probe(up) == ActionKind::Ready,
        !up ==> kind_on_wait_probe(up) == ActionKind::CheckClock && state_on_wait_probe(up)
            == LaunchState::Waiting,
{
}

} // verus!
