use pianke::process::{
    group_kill_grace_millis, last_word_of, listening_pids, lsof_args, netstat_args,
    pids_from_lsof, signal_group_args, signed_decimal_string, taskkill_pid_args,
    taskkill_tree_args, term_pid_args,
};

fn strings(items: &[&str]) -> Vec<String> {
    items.iter().map(|s| s.to_string()).collect()
}

#[test]
fn process_group_signals() {
    assert_eq!(signal_group_args(false, 1234), strings(&["-TERM", "-1234"]));
    assert_eq!(signal_group_args(true, 1234), strings(&["-KILL", "-1234"]));
    // Ids beyond the signed range are read as negative numbers.
    assert_eq!(signal_group_args(false, u32::MAX), strings(&["-TERM", "--1"]));
    assert_eq!(group_kill_grace_millis(), 500);
    assert_eq!(taskkill_tree_args(42), strings(&["/T", "/F", "/PID", "42"]));
}

#[test]
fn signed_numbers() {
    assert_eq!(signed_decimal_string(0), "0");
    assert_eq!(signed_decimal_string(-17), "-17");
    assert_eq!(signed_decimal_string(i64::MIN), i64::MIN.to_string());
    assert_eq!(signed_decimal_string(i64::MAX), i64::MAX.to_string());
}

#[test]
fn lsof_output_is_read() {
    assert_eq!(lsof_args(5057), strings(&["-ti", ":5057"]));
    assert_eq!(pids_from_lsof("123\n 456 \r\nabc\n\n789"), vec![123, 456, 789]);
    assert_eq!(pids_from_lsof(""), Vec::<i32>::new());
    assert_eq!(pids_from_lsof("-5\n99999999999\n"), vec![-5]);
    assert_eq!(term_pid_args(77), strings(&["-TERM", "77"]));
}

#[test]
fn netstat_output_is_read() {
    let out = "  Proto  Local Address          Foreign Address        State           PID\r\n\
               \x20 TCP    0.0.0.0:5057           0.0.0.0:0              LISTENING       4242\r\n\
               \x20 TCP    127.0.0.1:5057         127.0.0.1:60000        ESTABLISHED     4242\r\n\
               \x20 TCP    0.0.0.0:8080           0.0.0.0:0              LISTENING       1111\r\n";
    assert_eq!(listening_pids(out, 5057), strings(&["4242"]));
    assert_eq!(listening_pids(out, 9), Vec::<String>::new());
    assert_eq!(netstat_args(), strings(&["-ano"]));
    assert_eq!(taskkill_pid_args("4242"), strings(&["/F", "/PID", "4242"]));
}

#[test]
fn last_words() {
    assert_eq!(last_word_of("a b  c  "), Some("c".to_string()));
    assert_eq!(last_word_of("single"), Some("single".to_string()));
    assert_eq!(last_word_of("   "), None);
    assert_eq!(last_word_of(""), None);
}
