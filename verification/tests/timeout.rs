use wiresmith::keys::PublicKey;
use wiresmith::sweep::{transfer_entry, transfer_report, TimeoutSweeper, DELETION_DEBOUNCE};

fn key(n: u8) -> PublicKey {
    PublicKey::new([n; 32])
}

#[test]
fn a_new_peer_starts_its_clock() {
    let mut sweep = TimeoutSweeper::new();
    assert_eq!(sweep.get(&key(1)), None);
    assert!(!sweep.observe(&key(1), 0, 1000, 10));
    assert_eq!(sweep.get(&key(1)), Some((0, 1000)));
    assert_eq!(sweep.last_deletion_at(), None);
}

#[test]
fn traffic_resets_the_clock() {
    let mut sweep = TimeoutSweeper::new();
    sweep.observe(&key(1), 100, 0, 10);
    assert!(!sweep.observe(&key(1), 150, 50, 10));
    assert_eq!(sweep.get(&key(1)), Some((150, 50)));
    assert!(!sweep.observe(&key(1), 150, 60, 10));
    assert_eq!(sweep.get(&key(1)), Some((150, 50)));
}

#[test]
fn a_silent_peer_is_deleted_after_the_timeout() {
    let mut sweep = TimeoutSweeper::new();
    sweep.observe(&key(1), 100, 0, 10);
    assert!(!sweep.observe(&key(1), 100, 10, 10));
    assert!(sweep.observe(&key(1), 100, 11, 10));
    assert_eq!(sweep.last_deletion_at(), Some(11));
    assert_eq!(sweep.get(&key(1)), Some((100, 0)));
}

#[test]
fn at_most_one_deletion_in_sixty_seconds() {
    assert_eq!(DELETION_DEBOUNCE, 60);
    let mut sweep = TimeoutSweeper::new();
    sweep.observe(&key(1), 1, 0, 10);
    sweep.observe(&key(2), 2, 0, 10);
    sweep.observe(&key(3), 3, 0, 10);
    assert!(sweep.observe(&key(1), 1, 20, 10));
    assert!(!sweep.observe(&key(2), 2, 20, 10));
    assert!(!sweep.observe(&key(3), 3, 20, 10));
    assert!(!sweep.observe(&key(2), 2, 79, 10));
    assert_eq!(sweep.last_deletion_at(), Some(20));
    assert!(sweep.observe(&key(2), 2, 80, 10));
    assert_eq!(sweep.last_deletion_at(), Some(80));
    assert!(!sweep.observe(&key(3), 3, 80, 10));
    assert!(sweep.observe(&key(3), 3, 140, 10));
}

#[test]
fn a_timeout_of_zero_switches_the_sweep_off() {
    let mut sweep = TimeoutSweeper::new();
    assert!(!sweep.observe(&key(1), 1, 0, 0));
    assert_eq!(sweep.get(&key(1)), None);
    sweep.observe(&key(1), 1, 0, 10);
    assert!(!sweep.observe(&key(1), 1, 1_000_000, 0));
    assert_eq!(sweep.get(&key(1)), Some((1, 0)));
    assert_eq!(sweep.last_deletion_at(), None);
}

#[test]
fn peers_are_kept_apart() {
    let mut sweep = TimeoutSweeper::new();
    sweep.observe(&key(1), 1, 0, 600);
    sweep.observe(&key(2), 2, 5, 600);
    sweep.observe(&key(1), 9, 7, 600);
    assert_eq!(sweep.get(&key(1)), Some((9, 7)));
    assert_eq!(sweep.get(&key(2)), Some((2, 5)));
    assert_eq!(sweep.get(&key(3)), None);
}

#[test]
fn a_clock_that_runs_backwards_deletes_nothing() {
    let mut sweep = TimeoutSweeper::new();
    sweep.observe(&key(1), 1, 100, 10);
    assert!(!sweep.observe(&key(1), 1, 50, 10));
    assert!(sweep.observe(&key(1), 1, 200, 10));
    sweep.observe(&key(2), 1, 0, 10);
    assert!(!sweep.observe(&key(2), 1, 150, 10));
}

#[test]
fn a_killed_node_leaves_the_two_survivors() {
    // three nodes; node c stops sending at time 0, the others keep sending
    let timeout = 10;
    let mut sweep = TimeoutSweeper::new();
    let mut registry = vec![key(1), key(2), key(3)];
    let mut now = 0;
    while now <= 20 {
        let counters = [(key(2), 1000 + now), (key(3), 77)];
        for (k, rx) in counters {
            if sweep.observe(&k, rx, now, timeout) {
                registry.retain(|r| *r != k);
            }
        }
        now += 5;
    }
    assert_eq!(registry, vec![key(1), key(2)]);
}

fn fields(line: &str) -> Vec<String> {
    line.split('\t').map(str::to_string).collect()
}

#[test]
fn transfer_lines_give_key_and_received_bytes() {
    let line = "AQEBAQEBAQEBAQEBAQEBAQEBAQEBAQEBAQEBAQEBAQE=\t1234\t99";
    assert_eq!(transfer_entry(&fields(line)), Some((key(1), 1234)));
    let line = "AQEBAQEBAQEBAQEBAQEBAQEBAQEBAQEBAQEBAQEBAQE=\t0\tnot looked at";
    assert_eq!(transfer_entry(&fields(line)), Some((key(1), 0)));
}

#[test]
fn malformed_transfer_lines_give_nothing() {
    assert_eq!(transfer_entry(&fields("")), None);
    assert_eq!(transfer_entry(&fields("AQEBAQEBAQEBAQEBAQEBAQEBAQEBAQEBAQEBAQEBAQE=\t12")), None);
    assert_eq!(
        transfer_entry(&fields("AQEBAQEBAQEBAQEBAQEBAQEBAQEBAQEBAQEBAQEBAQE=\t1\t2\t3")),
        None
    );
    assert_eq!(transfer_entry(&fields("key\t1\t2")), None);
    assert_eq!(
        transfer_entry(&fields("AQEBAQEBAQEBAQEBAQEBAQEBAQEBAQEBAQEBAQEBAQE=\t-1\t2")),
        None
    );
}

#[test]
fn transfer_report_has_a_line_for_each_peer() {
    let report = "AQEBAQEBAQEBAQEBAQEBAQEBAQEBAQEBAQEBAQEBAQE=\t1234\t99\n\
                  AgICAgICAgICAgICAgICAgICAgICAgICAgICAgICAgI=\t0\t0\n";
    assert_eq!(transfer_report(report), Some(vec![(key(1), 1234), (key(2), 0)]));
    assert_eq!(transfer_report(""), Some(vec![]));
    assert_eq!(transfer_report("\n\n"), Some(vec![]));
    let unterminated = "AQEBAQEBAQEBAQEBAQEBAQEBAQEBAQEBAQEBAQEBAQE=\t5\t6";
    assert_eq!(transfer_report(unterminated), Some(vec![(key(1), 5)]));
}

#[test]
fn a_malformed_line_spoils_the_report() {
    let report = "AQEBAQEBAQEBAQEBAQEBAQEBAQEBAQEBAQEBAQEBAQE=\t1234\t99\nnonsense\n";
    assert_eq!(transfer_report(report), None);
    assert_eq!(transfer_report("AQEBAQEBAQEBAQEBAQEBAQEBAQEBAQEBAQEBAQEBAQE= 1 2\n"), None);
    assert_eq!(transfer_report(" \n"), None);
}
