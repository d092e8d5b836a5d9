use iptv::filter::{filter_reordered_seq, SeqCursor};

#[test]
fn first_packet_initializes_cursor() {
    let mut c = SeqCursor::new();
    assert!(filter_reordered_seq(&mut c, 12345));
    assert!(c.has_first);
    assert_eq!(c.current, 12345);
}

#[test]
fn first_packet_may_be_zero() {
    let mut c = SeqCursor::new();
    assert!(filter_reordered_seq(&mut c, 0));
    assert!(c.has_first);
    assert_eq!(c.current, 0);
    assert!(!filter_reordered_seq(&mut c, 0));
}

#[test]
fn in_window_advances_cursor() {
    let mut c = SeqCursor { has_first: true, current: 100 };
    assert!(filter_reordered_seq(&mut c, 101));
    assert_eq!(c.current, 101);
    assert!(filter_reordered_seq(&mut c, 2000));
    assert_eq!(c.current, 2000);
}

#[test]
fn window_edge_is_accepted() {
    let mut c = SeqCursor { has_first: true, current: 2 };
    assert!(filter_reordered_seq(&mut c, 3002));
    assert_eq!(c.current, 3002);
}

#[test]
fn duplicate_is_rejected() {
    let mut c = SeqCursor { has_first: true, current: 500 };
    assert!(!filter_reordered_seq(&mut c, 500));
    assert!(c.has_first);
    assert_eq!(c.current, 500);
}

#[test]
fn just_outside_window_is_rejected() {
    let mut c = SeqCursor { has_first: true, current: 2 };
    assert!(!filter_reordered_seq(&mut c, 3003));
    assert_eq!(c.current, 2);
}

#[test]
fn far_ahead_is_rejected() {
    let mut c = SeqCursor { has_first: true, current: 100 };
    assert!(!filter_reordered_seq(&mut c, 40000));
    assert_eq!(c.current, 100);
}

#[test]
fn stale_packet_is_rejected() {
    let mut c = SeqCursor { has_first: true, current: 1000 };
    assert!(!filter_reordered_seq(&mut c, 999));
    assert_eq!(c.current, 1000);
}

#[test]
fn wraparound_window_accepts() {
    let mut c = SeqCursor { has_first: true, current: 65534 };
    assert!(filter_reordered_seq(&mut c, 2));
    assert_eq!(c.current, 2);
}

#[test]
fn backward_across_rollover_is_rejected() {
    let mut c = SeqCursor { has_first: true, current: 2 };
    assert!(!filter_reordered_seq(&mut c, 65534));
    assert_eq!(c.current, 2);
}

#[test]
fn rollover_edge_values() {
    let mut c = SeqCursor { has_first: true, current: 65535 };
    assert!(filter_reordered_seq(&mut c, 0));
    assert_eq!(c.current, 0);
    let mut c = SeqCursor { has_first: true, current: 64000 };
    assert!(filter_reordered_seq(&mut c, 1463));
    assert_eq!(c.current, 1463);
    let mut c = SeqCursor { has_first: true, current: 64000 };
    assert!(!filter_reordered_seq(&mut c, 1465));
    assert_eq!(c.current, 64000);
}
