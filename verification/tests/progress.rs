use git_unwrap::progress::percent;
use git_unwrap::text::{decimal_len, digit, push_decimal, push_padded, push_spaces};
use git_unwrap::{State, TransferProgress};

fn snapshot(received: usize, total: usize, indexed: usize, bytes: usize) -> TransferProgress {
    TransferProgress {
        received_objects: received,
        total_objects: total,
        indexed_objects: indexed,
        total_deltas: 40,
        indexed_deltas: 7,
        received_bytes: bytes,
    }
}

fn status(
    stats: &TransferProgress,
    net: usize,
    idx: usize,
    chk: usize,
    current: usize,
    total: usize,
    path: &str,
) -> String {
    format!(
        "net {:3}% ({:4} kb, {:5}/{:5})  /  idx {:3}% ({:5}/{:5})  /  chk {:3}% ({:4}/{:4}) {}\r",
        net,
        stats.received_bytes / 1024,
        stats.received_objects,
        stats.total_objects,
        idx,
        stats.indexed_objects,
        stats.total_objects,
        chk,
        current,
        total,
        path
    )
}

#[test]
fn digits_are_the_ten_numerals() {
    let all: String = (0u8..10).map(digit).collect();
    assert_eq!(all, "0123456789");
    assert_eq!(digit(10), '0');
    assert_eq!(digit(255), '0');
}

#[test]
fn decimal_matches_std_formatting() {
    for n in [0usize, 1, 9, 10, 11, 99, 100, 101, 12345, 1_000_000, usize::MAX] {
        let mut out = String::from("x");
        push_decimal(&mut out, n);
        assert_eq!(out, format!("x{}", n));
        assert_eq!(decimal_len(n), format!("{}", n).len());
    }
}

#[test]
fn padding_fills_on_the_left_and_never_cuts() {
    let mut out = String::new();
    push_padded(&mut out, 7, 3);
    assert_eq!(out, "  7");
    let mut out = String::new();
    push_padded(&mut out, 100, 3);
    assert_eq!(out, "100");
    let mut out = String::new();
    push_padded(&mut out, 123456, 4);
    assert_eq!(out, "123456");
    let mut out = String::new();
    push_padded(&mut out, 0, 0);
    assert_eq!(out, "0");
    for (n, w) in [(0usize, 5usize), (42, 5), (99999, 5), (100000, 5), (3, 1)] {
        let mut out = String::from(">");
        push_padded(&mut out, n, w);
        assert_eq!(out, format!(">{:w$}", n, w = w));
    }
}

#[test]
fn spaces_are_appended() {
    let mut out = String::from("a");
    push_spaces(&mut out, 3);
    assert_eq!(out, "a   ");
    push_spaces(&mut out, 0);
    assert_eq!(out, "a   ");
}

#[test]
fn percent_is_integer_division() {
    assert_eq!(percent(0, 200), 0);
    assert_eq!(percent(1, 3), 33);
    assert_eq!(percent(2, 3), 66);
    assert_eq!(percent(50, 200), 25);
    assert_eq!(percent(199, 200), 99);
    assert_eq!(percent(200, 200), 100);
}

#[test]
fn percent_of_an_empty_total_is_zero() {
    assert_eq!(percent(0, 0), 0);
    assert_eq!(percent(5, 0), 0);
    assert_eq!(percent(usize::MAX, 0), 0);
}

#[test]
fn percent_stays_within_bounds() {
    assert_eq!(percent(300, 200), 100);
    assert_eq!(percent(usize::MAX, 1), 100);
    assert_eq!(percent(usize::MAX, usize::MAX), 100);
    assert_eq!(percent(usize::MAX - 1, usize::MAX), 99);
    for num in 0..=250usize {
        assert!(percent(num, 200) <= 100);
    }
}

#[test]
fn percent_does_not_fall_as_the_counter_rises() {
    let mut last = 0;
    for num in 0..=1000usize {
        let now = percent(num, 777);
        assert!(now >= last);
        last = now;
    }
    assert_eq!(last, 100);
}

#[test]
fn a_new_tracker_is_empty() {
    let state = State::new();
    assert_eq!(state.progress, None);
    assert_eq!(state.total, 0);
    assert_eq!(state.current, 0);
    assert_eq!(state.path, None);
    assert!(!state.newline);
}

#[test]
fn render_before_anything_arrived() {
    let mut state = State::new();
    let line = state.render();
    assert_eq!(
        line,
        "net   0% (   0 kb,     0/    0)  /  idx   0% (    0/    0)  /  chk   0% (   0/   0) \r"
    );
    assert!(!state.newline);
}

#[test]
fn transfer_renders_the_combined_line() {
    let mut state = State::new();
    let stats = snapshot(50, 200, 20, 4096 + 1023);
    let (line, proceed) = state.record_transfer(stats);
    assert!(proceed);
    assert_eq!(line, status(&stats, 25, 10, 0, 0, 0, ""));
    assert_eq!(
        line,
        "net  25% (   4 kb,    50/  200)  /  idx  10% (   20/  200)  /  chk   0% (   0/   0) \r"
    );
    assert_eq!(state.progress, Some(stats));
    assert!(!state.newline);
}

#[test]
fn checkout_step_renders_path_and_counts() {
    let mut state = State::new();
    let stats = snapshot(1, 3, 2, 10);
    state.record_transfer(stats);
    let line = state.record_checkout_step(Some(String::from("src/main.rs")), 3, 10);
    assert_eq!(line, status(&stats, 33, 66, 30, 3, 10, "src/main.rs"));
    assert_eq!(state.current, 3);
    assert_eq!(state.total, 10);
    assert_eq!(state.path, Some(String::from("src/main.rs")));
    let line = state.record_checkout_step(None, 10, 10);
    assert_eq!(line, status(&stats, 33, 66, 100, 10, 10, ""));
    assert_eq!(state.path, None);
}

#[test]
fn checkout_of_no_files_shows_zero_percent() {
    let mut state = State::new();
    let stats = snapshot(1, 2, 1, 0);
    state.record_transfer(stats);
    let line = state.record_checkout_step(None, 0, 0);
    assert_eq!(line, status(&stats, 50, 50, 0, 0, 0, ""));
    let line = state.record_checkout_step(Some(String::from("a")), 4, 0);
    assert_eq!(line, status(&stats, 50, 50, 0, 4, 0, "a"));
}

#[test]
fn wide_numbers_are_not_cut() {
    let mut state = State::new();
    let stats = snapshot(1234567, 7654321, 7654321, 1024 * 123456);
    state.record_transfer(stats);
    let line = state.record_checkout_step(Some(String::from("p")), 54321, 99999);
    assert_eq!(line, status(&stats, 16, 100, 54, 54321, 99999, "p"));
}

#[test]
fn delta_line_starts_on_a_new_line_once() {
    let mut state = State::new();
    state.record_transfer(snapshot(199, 200, 100, 0));
    assert!(!state.newline);
    let (first, _) = state.record_transfer(snapshot(200, 200, 150, 0));
    assert_eq!(first, "\nResolving deltas 7/40\r");
    assert!(state.newline);
    let mut later = snapshot(200, 200, 200, 0);
    later.indexed_deltas = 40;
    let (second, proceed) = state.record_transfer(later);
    assert!(proceed);
    assert_eq!(second, "Resolving deltas 40/40\r");
    assert!(state.newline);
    let third = state.record_checkout_step(Some(String::from("f")), 1, 2);
    assert_eq!(third, "Resolving deltas 40/40\r");
    assert_eq!(state.current, 1);
}

#[test]
fn an_empty_transfer_counts_as_received() {
    let mut state = State::new();
    let mut stats = snapshot(0, 0, 0, 0);
    stats.total_deltas = 0;
    stats.indexed_deltas = 0;
    let (line, proceed) = state.record_transfer(stats);
    assert!(proceed);
    assert_eq!(line, "\nResolving deltas 0/0\r");
    assert!(state.newline);
}

#[test]
fn transfer_percentages_rise_with_the_counters() {
    let mut last_net = 0;
    let mut last_idx = 0;
    for step in 0..=40usize {
        let stats = snapshot(step * 5, 200, step * 3, step * 100);
        let net = percent(stats.received_objects, stats.total_objects);
        let idx = percent(stats.indexed_objects, stats.total_objects);
        assert!(net >= last_net && net <= 100);
        assert!(idx >= last_idx && idx <= 100);
        last_net = net;
        last_idx = idx;
    }
    assert_eq!(last_net, 100);
    assert_eq!(last_idx, 60);
}
