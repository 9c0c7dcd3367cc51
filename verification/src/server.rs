//! The local server: its port and address, the start-up wait, the health
//! monitor and the addresses the window navigates to.

use vstd::prelude::*;
use crate::text::{concat2, decimal, decimal_string, owned, parse_u16, parse_u16_spec, str_eq};

verus! {

// ---------------------------------------------------------------------------
// Port and address
// ---------------------------------------------------------------------------

/// The port used when no valid port is configured.
pub open spec fn default_port() -> u16 {
    5057
}

/// The port for the value of the `PIC_SELECTER_PORT` setting (none when
/// unset): the setting when it parses as a port number, 5057 otherwise.
pub open spec fn port_spec(setting: Option<Seq<char>>) -> u16 {
    match setting {
        Some(s) => match parse_u16_spec(s) {
            Some(p) => p,
            None => default_port(),
        },
        None => default_port(),
    }
}

/// The text of an optional string.
pub open spec fn opt_text(o: Option<&str>) -> Option<Seq<char>> {
    match o {
        Some(s) => Some(s@),
        None => None,
    }
}

/// The server port for the `PIC_SELECTER_PORT` setting.
pub fn port_from_setting(setting: Option<&str>) -> (r: u16)
    ensures
        r == port_spec(opt_text(setting)),
{
    match setting {
        Some(s) => match parse_u16(s) {
            Some(p) => p,
            None => 5057,
        },
        None => 5057,
    }
}

/// The address of the local server on `port`.
pub open spec fn spec_server_url(port: u16) -> Seq<char> {
    "http://localhost:"@ + decimal(port as nat)
}

/// The address of the local server on `port`.
pub fn server_url(port: u16) -> (r: String)
    ensures
        r@ == spec_server_url(port),
{
    let n = decimal_string(port as u64);
    concat2("http://localhost:", n.as_str())
}

/// The port that a previous run may have left a server on; it is cleared
/// before the update check restarts the set-up page.
pub open spec fn spec_stale_port() -> u16 {
    5057
}

/// The port that the update check clears.
pub fn stale_port() -> (r: u16)
    ensures
        r == spec_stale_port(),
{
    5057
}

// ---------------------------------------------------------------------------
// Waiting for the server
// ---------------------------------------------------------------------------

/// How long the start-up waits for the server, in seconds (the first start
/// may load large models).
pub fn startup_timeout_secs() -> (r: u64)
    ensures
        r == 180,
{
    180
}

/// How long to sleep between two probes while waiting, in milliseconds.
pub fn probe_interval_millis() -> (r: u64)
    ensures
        r == 500,
{
    500
}

/// The wait has run out: more time than `timeout_secs` has elapsed.
pub open spec fn timed_out_spec(elapsed_nanos: u128, timeout_secs: u64) -> bool {
    elapsed_nanos > timeout_secs * 1_000_000_000
}

/// Whether the wait has run out; it is checked before each probe.
pub fn wait_timed_out(elapsed_nanos: u128, timeout_secs: u64) -> (r: bool)
    ensures
        r == timed_out_spec(elapsed_nanos, timeout_secs),
{
    elapsed_nanos > (timeout_secs as u128) * 1_000_000_000
}

/// The error when the server did not answer within `timeout_secs` seconds.
pub fn wait_timeout_message(timeout_secs: u64) -> (r: String)
    ensures
        r@ == "Flask 服务在 "@ + decimal(timeout_secs as nat) + " 秒内未响应"@,
{
    let n = decimal_string(timeout_secs);
    let mut r = concat2("Flask 服务在 ", n.as_str());
    r.append(" 秒内未响应");
    r
}

// ---------------------------------------------------------------------------
// Health monitor
// ---------------------------------------------------------------------------

/// How long the health monitor sleeps between two probes, in seconds.
pub fn health_interval_secs() -> (r: u64)
    ensures
        r == 30,
{
    30
}

/// The number of consecutive failed probes after which the monitor gives up.
pub open spec fn failure_limit() -> u32 {
    3
}

/// The health monitor's state after one probe.
pub struct HealthVerdict {
    /// Consecutive failed probes so far.
    pub failures: u32,
    /// The server is declared dead and the monitor stops.
    pub give_up: bool,
}

/// One probe of the health monitor: an answer resets the count of failures;
/// a silence adds one, and the third in a row gives up.
pub fn health_step(failures: u32, server_up: bool) -> (r: HealthVerdict)
    requires
        failures < u32::MAX,
    ensures
        server_up ==> r.failures == 0 && !r.give_up,
        !server_up ==> r.failures == failures + 1 && r.give_up == (failures + 1 >= failure_limit()),
{
    if server_up {
        HealthVerdict { failures: 0, give_up: false }
    } else {
        let f = failures + 1;
        HealthVerdict { failures: f, give_up: f >= 3 }
    }
}

/// The health monitor's failure count after the probe results `probes`,
/// starting from none, as long as it has not given up.
pub open spec fn failures_after(probes: Seq<bool>) -> nat
    decreases probes.len(),
{
    if probes.len() == 0 {
        0
    } else if probes.last() {
        0
    } else {
        failures_after(probes.drop_last()) + 1
    }
}

/// The monitor gives up on a silent probe exactly when the two probes
/// before it were silent too: after any history, three silences in a row
/// are needed, and an answer in between starts the count again.
pub proof fn law_three_silences_give_up(probes: Seq<bool>)
    requires
        probes.len() >= 1,
        !probes.last(),
    ensures
        (failures_after(probes) >= failure_limit()) <==> (probes.len() >= 3
            && !probes[probes.len() - 2] && !probes[probes.len() - 3]),
{
    reveal_with_fuel(failures_after, 4);
    let p1 = probes.drop_last();
    if p1.len() > 0 {
        let p2 = p1.drop_last();
        if p2.len() > 0 {
            assert(p2.last() == probes[probes.len() - 3]);
        }
        assert(p1.last() == probes[probes.len() - 2]);
    }
}

/// The failure count `health_step` keeps is the length of the current run of
/// silent probes: an answer brings it back to zero, a silence adds one.
pub proof fn law_health_count_tracks_silences(probes: Seq<bool>, answered: bool)
    ensures
        answered ==> failures_after(probes.push(answered)) == 0,
        !answered ==> failures_after(probes.push(answered)) == failures_after(probes) + 1,
{
    assert(probes.push(answered).drop_last() =~= probes);
}

/// A port written out as the server address writes it is read back as the
/// same port from the port setting.
pub proof fn law_port_setting_round_trip(port: u16)
    ensures
        port_spec(Some(decimal(port as nat))) == port,
{
    crate::text::lemma_decimal_digits(port as nat);
}

/// The error when the server stopped answering.
pub fn unresponsive_message() -> (r: String)
    ensures
        r@ == "Flask 服务已无响应，请重启应用"@,
{
    owned("Flask 服务已无响应，请重启应用")
}

// ---------------------------------------------------------------------------
// Navigation
// ---------------------------------------------------------------------------

/// `url::Url`, a parsed URL, carried through as an opaque value.
#[verifier::external_type_specification]
#[verifier::external_body]
pub struct ExUrl(url::Url);

/// The serialization of the URL that `url::Url::parse` makes of `s`, or
/// none when it refuses `s`.
pub uninterp spec fn spec_url_parse(s: Seq<char>) -> Option<Seq<char>>;

/// The text of a parsed URL, as `Url::as_str` gives it.
pub uninterp spec fn spec_url_text(u: url::Url) -> Seq<char>;

/// Parses an absolute URL by `url::Url::parse`. The contract claims that
/// the call succeeds exactly when the crate accepts the text of `s`, and
/// that the URL it gives is written out as the crate writes the parse of
/// that text.
#[verifier::external_body]
fn parse_url(s: &str) -> (r: Option<url::Url>)
    ensures
        r is Some == spec_url_parse(s@) is Some,
        r matches Some(u) ==> spec_url_parse(s@) == Some(spec_url_text(u)),
{
    match url::Url::parse(s) {
        Ok(u) => Some(u),
        Err(_) => None,
    }
}

/// The text of `u`, by `Url::as_str`. The contract claims that it is the
/// text the crate keeps for `u`.
#[verifier::external_body]
fn url_text(u: &url::Url) -> (r: String)
    ensures
        r@ == spec_url_text(*u),
{
    u.as_str().to_string()
}

/// An address the window can navigate to.
pub struct NavigationTarget {
    pub url: url::Url,
    /// The parsed address as it is written out.
    pub serialized: String,
}

/// The navigation target for the address `text`, when it parses.
pub fn navigation_target(text: &str) -> (r: Option<NavigationTarget>)
    ensures
        r is Some == spec_url_parse(text@) is Some,
        r matches Some(t) ==> spec_url_parse(text@) == Some(t.serialized@) && spec_url_text(t.url)
            == t.serialized@,
{
    match parse_url(text) {
        Some(url) => {
            let serialized = url_text(&url);
            Some(NavigationTarget { url, serialized })
        },
        None => None,
    }
}

/// Where the window returns to for the update check: the set-up page's
/// address when it was recorded at start-up and parses.
pub fn home_navigation(home_url: &str) -> (r: Option<NavigationTarget>)
    ensures
        home_url@.len() == 0 ==> r is None,
        home_url@.len() > 0 ==> (r is Some == spec_url_parse(home_url@) is Some),
        r matches Some(t) ==> spec_url_parse(home_url@) == Some(t.serialized@) && spec_url_text(
            t.url,
        ) == t.serialized@,
{
    if home_url.is_empty() {
        None
    } else {
        navigation_target(home_url)
    }
}

/// Whether the menu item `id` is the update check.
pub fn is_update_menu_item(id: &str) -> (r: bool)
    ensures
        r == (id@ == "check_update"@),
{
    str_eq(id, "check_update")
}

} // verus!
