use queubious::admission::SessionState;
use queubious::clock::clock_label;
use queubious::identity::VisitorId;
use queubious::status::{
    default_status, get_status, position_at, progress_percent, queued_status, StatusError,
};
use queubious::store::StateStore;

#[test]
fn progress_is_the_covered_share_rounded_down() {
    assert_eq!(progress_percent(1, 1), 0);
    assert_eq!(progress_percent(4, 4), 0);
    assert_eq!(progress_percent(3, 4), 25);
    assert_eq!(progress_percent(2, 4), 50);
    assert_eq!(progress_percent(1, 4), 75);
    assert_eq!(progress_percent(1, 3), 66);
    assert_eq!(progress_percent(2, 3), 33);
    assert_eq!(progress_percent(1, 100), 99);
    assert_eq!(progress_percent(1, 1000), 99);
    assert_eq!(progress_percent(999, 1000), 0);
    assert_eq!(progress_percent(0, 5), 100);
}

#[test]
fn progress_with_unknown_or_overtaken_original_position_is_zero() {
    assert_eq!(progress_percent(1, 0), 0);
    assert_eq!(progress_percent(0, 0), 0);
    assert_eq!(progress_percent(7, 3), 0);
    assert_eq!(progress_percent(usize::MAX, 1), 0);
}

#[test]
fn progress_does_not_overflow_on_large_positions() {
    assert_eq!(progress_percent(1, usize::MAX), 99);
    assert_eq!(progress_percent(usize::MAX / 2 + 1, usize::MAX), 49);
    assert_eq!(progress_percent(usize::MAX - 1, usize::MAX), 0);
}

#[test]
fn progress_never_falls_as_the_visitor_advances() {
    for original in 0..40usize {
        let mut last = 0;
        for position in (0..=original + 2).rev() {
            let now = progress_percent(position, original);
            assert!(now >= last);
            assert!(now <= 100);
            last = now;
        }
    }
}

#[test]
fn default_status_is_first_in_line() {
    let status = default_status(String::from("09:30:00"));
    assert_eq!(status.position, 1);
    assert_eq!(status.progress, 0);
    assert_eq!(status.wait_time, "119 Minutes");
    assert_eq!(status.last_updated, "09:30:00");
    assert!(status.messages.is_empty());
}

#[test]
fn queued_status_counts_positions_from_one() {
    let status = queued_status(0, Some(4), String::from("x"));
    assert_eq!((status.position, status.progress), (1, 75));
    let status = queued_status(3, Some(4), String::from("x"));
    assert_eq!((status.position, status.progress), (4, 0));
    let status = queued_status(6, None, String::from("x"));
    assert_eq!((status.position, status.progress), (7, 0));
    let status = queued_status(2, Some(0), String::from("x"));
    assert_eq!((status.position, status.progress), (3, 0));
    assert_eq!(status.wait_time, "119 Minutes");
}

#[test]
fn clock_label_writes_two_digits_each() {
    assert_eq!(clock_label(0), "00:00:00");
    assert_eq!(clock_label(59), "00:00:59");
    assert_eq!(clock_label(60), "00:01:00");
    assert_eq!(clock_label(3_599), "00:59:59");
    assert_eq!(clock_label(3_600), "01:00:00");
    assert_eq!(clock_label(9 * 3600 + 5 * 60 + 7), "09:05:07");
    assert_eq!(clock_label(86_399), "23:59:59");
    assert_eq!(clock_label(86_400), "00:00:00");
    assert_eq!(clock_label(u32::MAX), "06:28:15");
}

#[test]
fn get_status_is_stamped_with_the_time_of_day() {
    let mut store = StateStore::new(0);
    let a = VisitorId { value: 1 };
    let b = VisitorId { value: 2 };
    store.push_to_queue(a);
    store.push_to_queue(b);
    let session = SessionState::Enqueued { original_position: 5 };
    let shown = get_status(&store, Some(b), session, 13 * 3600 + 37 * 60 + 2).unwrap();
    assert_eq!(shown.position, 2);
    assert_eq!(shown.progress, 60);
    assert_eq!(shown.last_updated, "13:37:02");
    let fallback = get_status(&store, None, SessionState::Unseen, 61).unwrap();
    assert_eq!((fallback.position, fallback.progress), (1, 0));
    assert_eq!(fallback.last_updated, "00:01:01");
    assert_eq!(
        get_status(&store, Some(VisitorId { value: 3 }), session, 0),
        Err(StatusError::NotQueued)
    );
}

#[test]
fn positions_are_counted_from_one() {
    assert_eq!(position_at(0), 1);
    assert_eq!(position_at(41), 42);
    assert_eq!(position_at(usize::MAX - 1), usize::MAX);
    assert_eq!(position_at(usize::MAX), usize::MAX);
}
