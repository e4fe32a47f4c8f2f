use flight::liveness::{is_live, record_data, smooth_frequency, BoardStatus, LivenessEvent, LivenessTracker};
use flight::message::NodeMapping;

fn fresh() -> BoardStatus {
    BoardStatus { mapped: false, connected: true, last_contact: None, frequency: None }
}

#[test]
fn smoothing_weights_previous_four_fifths() {
    assert_eq!(smooth_frequency(1000, 2000), 1200);
    assert_eq!(smooth_frequency(2000, 1000), 1800);
    assert_eq!(smooth_frequency(7, 7), 7);
    assert_eq!(smooth_frequency(u64::MAX, u64::MAX), u64::MAX);
}

#[test]
fn data_events_set_and_smooth_frequency() {
    let s = record_data(fresh(), 1_000_000);
    assert_eq!(s.last_contact, Some(1_000_000));
    assert_eq!(s.frequency, None);
    // 100 ms later: 10 Hz.
    let s = record_data(s, 1_100_000);
    assert_eq!(s.frequency, Some(10_000));
    // 50 ms later: a 20 Hz sample, smoothed to 12 Hz.
    let s = record_data(s, 1_150_000);
    assert_eq!(s.frequency, Some(12_000));
    assert_eq!(s.last_contact, Some(1_150_000));
}

#[test]
fn data_not_after_last_contact_keeps_frequency() {
    let s = BoardStatus { mapped: true, connected: true, last_contact: Some(500), frequency: Some(42) };
    let s = record_data(s, 500);
    assert_eq!(s, BoardStatus { mapped: true, connected: true, last_contact: Some(500), frequency: Some(42) });
}

#[test]
fn frequency_converges_at_constant_interval() {
    // Start far from the true rate, then receive data every 20 ms (50 Hz).
    let target: u64 = 50_000;
    let mut s = BoardStatus { mapped: false, connected: true, last_contact: Some(0), frequency: Some(1_000) };
    let mut previous_gap = target - 1_000;
    for k in 1..=30u64 {
        s = record_data(s, k * 20_000);
        let f = s.frequency.unwrap();
        let gap = if f > target { f - target } else { target - f };
        assert!(gap <= previous_gap);
        previous_gap = gap;
    }
    assert!(previous_gap * 100 <= target);
}

#[test]
fn fresh_board_at_constant_interval_has_exact_frequency() {
    let mut s = fresh();
    for k in 0..12u64 {
        s = record_data(s, 3_000_000 + k * 250_000);
    }
    assert_eq!(s.frequency, Some(4_000));
}

#[test]
fn tracker_events_create_and_update_records() {
    let mut t = LivenessTracker::new();
    assert_eq!(t.status("abc"), None);
    t.apply(LivenessEvent::Identity("abc".to_string()));
    assert_eq!(t.status("abc"), Some(BoardStatus { mapped: false, connected: true, last_contact: None, frequency: None }));
    t.apply(LivenessEvent::Status("abc".to_string(), false));
    assert_eq!(t.status("abc"), Some(BoardStatus { mapped: false, connected: false, last_contact: None, frequency: None }));
    t.apply(LivenessEvent::Status("efg".to_string(), false));
    assert_eq!(t.status("efg"), Some(BoardStatus { mapped: false, connected: false, last_contact: None, frequency: None }));
    t.apply(LivenessEvent::Data("xyz".to_string(), 10));
    assert_eq!(t.status("xyz"), Some(BoardStatus { mapped: false, connected: true, last_contact: Some(10), frequency: None }));
    t.apply(LivenessEvent::Data("xyz".to_string(), 1_010));
    assert_eq!(t.status("xyz").unwrap().frequency, Some(1_000_000));
    t.apply(LivenessEvent::Identity("abc".to_string()));
    assert_eq!(t.status("abc").unwrap().connected, true);
}

#[test]
fn mapping_marks_boards_without_unmapping_others() {
    let mut t = LivenessTracker::new();
    t.apply(LivenessEvent::Identity("sam-01".to_string()));
    t.apply(LivenessEvent::Identity("sam-02".to_string()));
    let mappings = vec![
        NodeMapping { text_id: "v1".to_string(), board_id: "sam-01".to_string(), channel: 1, normally_closed: None },
        NodeMapping { text_id: "v2".to_string(), board_id: "sam-03".to_string(), channel: 2, normally_closed: None },
    ];
    t.mark_mapped(&mappings);
    assert_eq!(t.status("sam-01"), Some(BoardStatus { mapped: true, connected: true, last_contact: None, frequency: None }));
    assert_eq!(t.status("sam-02"), Some(BoardStatus { mapped: false, connected: true, last_contact: None, frequency: None }));
    assert_eq!(t.status("sam-03"), Some(BoardStatus { mapped: true, connected: false, last_contact: None, frequency: None }));
}

#[test]
fn liveness_depends_on_time_since_last_contact() {
    let heard = BoardStatus { mapped: true, connected: true, last_contact: Some(1_000_000), frequency: None };
    assert!(is_live(&heard, 1_050_000, 100_000));
    assert!(!is_live(&heard, 1_100_000, 100_000));
    assert!(!is_live(&heard, 5_000_000, 100_000));
    assert!(is_live(&heard, 900_000, 100_000));
    let silent = BoardStatus { mapped: true, connected: true, last_contact: None, frequency: None };
    assert!(!is_live(&silent, 0, 100_000));
}

#[test]
fn draining_stops_when_empty_or_over_budget() {
    let mut t = LivenessTracker::new();
    assert!(t.drain_step(Some(LivenessEvent::Identity("a".to_string())), 10, 100));
    assert_eq!(t.status("a").unwrap().connected, true);
    assert!(!t.drain_step(Some(LivenessEvent::Status("a".to_string(), false)), 100, 100));
    assert_eq!(t.status("a").unwrap().connected, false);
    assert!(!t.drain_step(None, 0, 100));
    assert_eq!(t.status("a").unwrap().connected, false);
}
