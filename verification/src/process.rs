//! Stopping the server: the commands that end its process group and free
//! its port, and reading the process ids out of `lsof` and `netstat`.

use vstd::prelude::*;
use crate::text::{
    chars_of, concat2, contains_seq, contains_str, decimal, decimal_string, is_whitespace,
    parse_i32, parse_i32_spec, push_owned, push_string, spec_is_whitespace, split_char,
    split_on, string_of_range, trim, trim_back, trimmed,
};

verus! {

// ---------------------------------------------------------------------------
// Signed numbers
// ---------------------------------------------------------------------------

/// The decimal representation of `i`, with a leading `-` when negative.
pub open spec fn signed_decimal(i: int) -> Seq<char> {
    if i < 0 {
        "-"@ + decimal((-i) as nat)
    } else {
        decimal(i as nat)
    }
}

/// The decimal representation of `i` (`ToString` on a signed integer).
pub fn signed_decimal_string(i: i64) -> (r: String)
    ensures
        r@ == signed_decimal(i as int),
{
    if i < 0 {
        let magnitude: u64 = if i == i64::MIN {
            9223372036854775808
        } else {
            (-i) as u64
        };
        let d = decimal_string(magnitude);
        concat2("-", d.as_str())
    } else {
        decimal_string(i as u64)
    }
}

// ---------------------------------------------------------------------------
// Ending the server's process group
// ---------------------------------------------------------------------------

/// The `kill` arguments that signal the process group led by `pid`: the
/// signal (`-KILL` when forced, `-TERM` otherwise), then the group as a
/// negative id, the id being read as a signed 32-bit number.
pub fn signal_group_args(force: bool, pid: u32) -> (r: Vec<String>)
    ensures
        r.deep_view() == seq![
            if force { "-KILL"@ } else { "-TERM"@ },
            "-"@ + signed_decimal((pid as i32) as int),
        ],
{
    let mut r: Vec<String> = Vec::new();
    if force {
        push_owned(&mut r, "-KILL");
    } else {
        push_owned(&mut r, "-TERM");
    }
    let id: i32 = pid as i32;
    let text = signed_decimal_string(id as i64);
    push_string(&mut r, concat2("-", text.as_str()));
    r
}

/// How long to wait between the polite and the forced signal, in milliseconds.
pub fn group_kill_grace_millis() -> (r: u64)
    ensures
        r == 500,
{
    500
}

/// The `taskkill` arguments that end the process tree of `pid` (Windows).
pub fn taskkill_tree_args(pid: u32) -> (r: Vec<String>)
    ensures
        r.deep_view() == seq!["/T"@, "/F"@, "/PID"@, decimal(pid as nat)],
{
    let mut r: Vec<String> = Vec::new();
    push_owned(&mut r, "/T");
    push_owned(&mut r, "/F");
    push_owned(&mut r, "/PID");
    push_string(&mut r, decimal_string(pid as u64));
    r
}

// ---------------------------------------------------------------------------
// Freeing a port (Unix)
// ---------------------------------------------------------------------------

/// The `lsof` arguments that list the processes using `port`.
pub fn lsof_args(port: u16) -> (r: Vec<String>)
    ensures
        r.deep_view() == seq!["-ti"@, ":"@ + decimal(port as nat)],
{
    let mut r: Vec<String> = Vec::new();
    push_owned(&mut r, "-ti");
    let d = decimal_string(port as u64);
    push_string(&mut r, concat2(":", d.as_str()));
    r
}

/// The process id on one line of `lsof` output, if it holds one.
pub open spec fn pid_of_line(line: Seq<char>) -> Option<i32> {
    parse_i32_spec(trimmed(line))
}

/// The process ids in `lsof` output: each line that, trimmed, parses as a
/// number, in order.
pub open spec fn lsof_pids_spec(output: Seq<char>) -> Seq<i32> {
    split_on(output, '\n').filter_map(|l: Seq<char>| pid_of_line(l))
}

/// Reads the process ids out of `lsof -t` output.
pub fn pids_from_lsof(output: &str) -> (r: Vec<i32>)
    ensures
        r@ == lsof_pids_spec(output@),
{
    let lines = split_char(output, '\n');
    let mut r: Vec<i32> = Vec::new();
    let mut i: usize = 0;
    while i < lines.len()
        invariant
            i <= lines.len(),
            lines.deep_view() == split_on(output@, '\n'),
            r@ == lines.deep_view().take(i as int).filter_map(|l: Seq<char>| pid_of_line(l)),
        decreases lines.len() - i,
    {
        let ghost cur = lines.deep_view().take(i + 1);
        assert(cur.drop_last() =~= lines.deep_view().take(i as int));
        assert(cur.last() == lines[i as int]@);
        let t = trim(lines[i].as_str());
        match parse_i32(t.as_str()) {
            Some(pid) => {
                r.push(pid);
            },
            None => {},
        }
        i += 1;
    }
    assert(lines.deep_view().take(lines.len() as int) =~= lines.deep_view());
    r
}

/// The `kill` arguments that ask process `pid` to terminate.
pub fn term_pid_args(pid: i32) -> (r: Vec<String>)
    ensures
        r.deep_view() == seq!["-TERM"@, signed_decimal(pid as int)],
{
    let mut r: Vec<String> = Vec::new();
    push_owned(&mut r, "-TERM");
    push_string(&mut r, signed_decimal_string(pid as i64));
    r
}

// ---------------------------------------------------------------------------
// Freeing a port (Windows)
// ---------------------------------------------------------------------------

/// The `netstat` arguments that list connections with their process ids.
pub fn netstat_args() -> (r: Vec<String>)
    ensures
        r.deep_view() == seq!["-ano"@],
{
    let mut r: Vec<String> = Vec::new();
    push_owned(&mut r, "-ano");
    r
}

/// The characters after the last whitespace of `t`.
pub open spec fn tail_word(t: Seq<char>) -> Seq<char>
    decreases t.len(),
{
    if t.len() == 0 || spec_is_whitespace(t.last()) {
        Seq::empty()
    } else {
        tail_word(t.drop_last()).push(t.last())
    }
}

/// The last whitespace-separated word of `s`, if it has one.
pub open spec fn last_word(s: Seq<char>) -> Option<Seq<char>> {
    if trim_back(s).len() == 0 {
        None
    } else {
        Some(tail_word(trim_back(s)))
    }
}

/// The last whitespace-separated word of `s` (`split_whitespace().last()`).
pub fn last_word_of(s: &str) -> (r: Option<String>)
    ensures
        r matches Some(w) ==> last_word(s@) == Some(w@),
        r is None ==> last_word(s@) is None,
{
    let cs = chars_of(s);
    let n = cs.len();
    let mut hi: usize = n;
    assert(s@.subrange(0, n as int) =~= s@);
    while hi > 0 && is_whitespace(cs[hi - 1])
        invariant
            cs@ == s@,
            n == cs.len(),
            hi <= n,
            trim_back(s@) == trim_back(s@.subrange(0, hi as int)),
        decreases hi,
    {
        assert(s@.subrange(0, hi as int).drop_last() =~= s@.subrange(0, hi - 1));
        hi -= 1;
    }
    let ghost t = s@.subrange(0, hi as int);
    assert(trim_back(t) == t);
    if hi == 0 {
        return None;
    }
    let mut lo: usize = hi;
    assert(t.subrange(hi as int, hi as int) =~= Seq::<char>::empty());
    assert(s@.subrange(0, hi as int) =~= t);
    while lo > 0 && !is_whitespace(cs[lo - 1])
        invariant
            cs@ == s@,
            n == cs.len(),
            lo <= hi <= n,
            t == s@.subrange(0, hi as int),
            tail_word(t) == tail_word(s@.subrange(0, lo as int)) + s@.subrange(lo as int, hi as int),
        decreases lo,
    {
        let ghost u = s@.subrange(0, lo as int);
        assert(u.drop_last() =~= s@.subrange(0, lo - 1));
        assert(s@.subrange(lo - 1, hi as int) =~= seq![u.last()] + s@.subrange(
            lo as int,
            hi as int,
        ));
        assert(tail_word(s@.subrange(0, lo - 1)).push(u.last()) + s@.subrange(lo as int, hi as int)
            =~= tail_word(s@.subrange(0, lo - 1)) + s@.subrange(lo - 1, hi as int));
        lo -= 1;
    }
    assert(tail_word(s@.subrange(0, lo as int)) =~= Seq::<char>::empty());
    assert(tail_word(t) =~= s@.subrange(lo as int, hi as int));
    Some(string_of_range(&cs, lo, hi))
}

/// The process id on one line of `netstat` output, when the line shows a
/// listener on the port written `port_text` (such as `:5057`): its last word.
pub open spec fn listener_of_line(line: Seq<char>, port_text: Seq<char>) -> Option<Seq<char>> {
    if contains_seq(line, port_text) && contains_seq(line, "LISTENING"@) {
        last_word(line)
    } else {
        None
    }
}

/// The process ids listening on `port` according to `netstat -ano` output.
pub open spec fn netstat_pids_spec(output: Seq<char>, port: u16) -> Seq<Seq<char>> {
    split_on(output, '\n').filter_map(
        |l: Seq<char>| listener_of_line(l, ":"@ + decimal(port as nat)),
    )
}

/// Reads the ids of the processes listening on `port` out of `netstat -ano`
/// output.
pub fn listening_pids(output: &str, port: u16) -> (r: Vec<String>)
    ensures
        r.deep_view() == netstat_pids_spec(output@, port),
{
    let lines = split_char(output, '\n');
    let d = decimal_string(port as u64);
    let port_text = concat2(":", d.as_str());
    let ghost pt = port_text@;
    let mut r: Vec<String> = Vec::new();
    let mut i: usize = 0;
    while i < lines.len()
        invariant
            i <= lines.len(),
            pt == port_text@,
            pt == ":"@ + decimal(port as nat),
            lines.deep_view() == split_on(output@, '\n'),
            r.deep_view() == lines.deep_view().take(i as int).filter_map(
                |l: Seq<char>| listener_of_line(l, pt),
            ),
        decreases lines.len() - i,
    {
        let ghost cur = lines.deep_view().take(i + 1);
        assert(cur.drop_last() =~= lines.deep_view().take(i as int));
        assert(cur.last() == lines[i as int]@);
        let line = lines[i].as_str();
        if contains_str(line, port_text.as_str()) && contains_str(line, "LISTENING") {
            match last_word_of(line) {
                Some(w) => {
                    push_string(&mut r, w);
                },
                None => {},
            }
        }
        i += 1;
    }
    assert(lines.deep_view().take(lines.len() as int) =~= lines.deep_view());
    r
}

/// Each element of `s.filter_map(f)` comes from an element of `s`.
proof fn lemma_filter_map_source<A, B>(s: Seq<A>, f: spec_fn(A) -> Option<B>, k: int)
    requires
        0 <= k < s.filter_map(f).len(),
    ensures
        exists|j: int| 0 <= j < s.len() && f(s[j]) == Some(s.filter_map(f)[k]),
    decreases s.len(),
{
    let rest = s.drop_last();
    match f(s.last()) {
        Some(y) => {
            if k == rest.filter_map(f).len() {
                assert(f(s[s.len() - 1]) == Some(s.filter_map(f)[k]));
            } else {
                lemma_filter_map_source(rest, f, k);
                let j = choose|j: int| 0 <= j < rest.len() && f(rest[j]) == Some(rest.filter_map(f)[k]);
                assert(s[j] == rest[j]);
            }
        },
        None => {
            lemma_filter_map_source(rest, f, k);
            let j = choose|j: int| 0 <= j < rest.len() && f(rest[j]) == Some(rest.filter_map(f)[k]);
            assert(s[j] == rest[j]);
        },
    }
}

/// Each element `s[j]` that `f` keeps appears in `s.filter_map(f)`.
proof fn lemma_filter_map_keeps<A, B>(s: Seq<A>, f: spec_fn(A) -> Option<B>, j: int)
    requires
        0 <= j < s.len(),
        f(s[j]) is Some,
    ensures
        s.filter_map(f).contains(f(s[j])->0),
    decreases s.len(),
{
    let rest = s.drop_last();
    if j == s.len() - 1 {
        let out = s.filter_map(f);
        assert(out[out.len() - 1] == f(s[j])->0);
    } else {
        assert(rest[j] == s[j]);
        lemma_filter_map_keeps(rest, f, j);
        let k = choose|k: int| 0 <= k < rest.filter_map(f).len() && rest.filter_map(f)[k] == f(s[j])->0;
        match f(s.last()) {
            Some(y) => {
                assert(s.filter_map(f)[k] == rest.filter_map(f)[k]);
            },
            None => {},
        }
    }
}

/// Every listener is reported: the last word of each line of the output that
/// names the port (`:<port>`) and says `LISTENING` is among the ids read.
pub proof fn law_every_listener_is_reported(output: Seq<char>, port: u16, j: int)
    requires
        0 <= j < split_on(output, '\n').len(),
        contains_seq(split_on(output, '\n')[j], ":"@ + decimal(port as nat)),
        contains_seq(split_on(output, '\n')[j], "LISTENING"@),
        last_word(split_on(output, '\n')[j]) is Some,
    ensures
        netstat_pids_spec(output, port).contains(last_word(split_on(output, '\n')[j])->0),
{
    let lines = split_on(output, '\n');
    let pt = ":"@ + decimal(port as nat);
    let f = |l: Seq<char>| listener_of_line(l, pt);
    lemma_filter_map_keeps(lines, f, j);
}

/// Only listeners are reported: every id read out of `netstat` output is the
/// last word of one of its lines that names the port (`:<port>`) and says
/// `LISTENING`; lines of other connections on the port contribute nothing.
pub proof fn law_only_listeners_are_reported(output: Seq<char>, port: u16, k: int)
    requires
        0 <= k < netstat_pids_spec(output, port).len(),
    ensures
        exists|line: Seq<char>|
            #![trigger split_on(output, '\n').contains(line)]
            split_on(output, '\n').contains(line) && contains_seq(line, ":"@ + decimal(port as nat))
                && contains_seq(line, "LISTENING"@) && last_word(line) == Some(
                netstat_pids_spec(output, port)[k],
            ),
{
    let lines = split_on(output, '\n');
    let pt = ":"@ + decimal(port as nat);
    let f = |l: Seq<char>| listener_of_line(l, pt);
    lemma_filter_map_source(lines, f, k);
    let j = choose|j: int| 0 <= j < lines.len() && f(lines[j]) == Some(lines.filter_map(f)[k]);
    assert(lines.contains(lines[j]));
}

/// The `taskkill` arguments that end the process with id `pid` (Windows).
pub fn taskkill_pid_args(pid: &str) -> (r: Vec<String>)
    ensures
        r.deep_view() == seq!["/F"@, "/PID"@, pid@],
{
    let mut r: Vec<String> = Vec::new();
    push_owned(&mut r, "/F");
    push_owned(&mut r, "/PID");
    push_owned(&mut r, pid);
    r
}

} // verus!
