use queubious::admission::{
    decide, enqueue_event, next_session, plan_visit, terminate_event, terminate_session,
    ttl_seconds, visit, waiting_room_path, SessionState, Settings,
};
use queubious::identity::VisitorId;
use queubious::model::{Decision, VisitPlan};
use queubious::status::{report, status, StatusError};
use queubious::store::StateStore;
use queubious::token::{egress_location, heartbeat, TokenError};

fn settings() -> Settings {
    Settings {
        issuer: String::from("https://queue.example"),
        destination: String::from("https://shop.example"),
        timeout_minutes: 5,
    }
}

fn id(n: u128) -> VisitorId {
    VisitorId { value: n }
}

#[test]
fn policy_admits_only_below_capacity_with_empty_queue() {
    assert_eq!(decide(0, 0, 1), Decision::Admit);
    assert_eq!(decide(0, 1, 1), Decision::Enqueue);
    assert_eq!(decide(0, 2, 1), Decision::Enqueue);
    assert_eq!(decide(1, 0, 5), Decision::Enqueue);
    assert_eq!(decide(0, 4, 5), Decision::Admit);
    assert_eq!(decide(0, 0, 0), Decision::Enqueue);
}

#[test]
fn plan_reads_membership_before_policy() {
    assert_eq!(plan_visit(false, true, 3, 1, 1), VisitPlan::Resume);
    assert_eq!(plan_visit(true, false, 3, 0, 9), VisitPlan::Wait);
    assert_eq!(plan_visit(false, false, 0, 0, 1), VisitPlan::Admit);
    assert_eq!(plan_visit(false, false, 0, 1, 1), VisitPlan::Enqueue);
    assert_eq!(plan_visit(false, false, 2, 0, 9), VisitPlan::Enqueue);
}

#[test]
fn session_records_original_position_once() {
    let joined = next_session(VisitPlan::Enqueue, SessionState::Unseen, 4);
    assert_eq!(joined, SessionState::Enqueued { original_position: 4 });
    let again = next_session(VisitPlan::Wait, joined, 2);
    assert_eq!(again, SessionState::Enqueued { original_position: 4 });
    let rederived = next_session(VisitPlan::Wait, SessionState::Unseen, 2);
    assert_eq!(rederived, SessionState::Enqueued { original_position: 2 });
    assert_eq!(next_session(VisitPlan::Admit, SessionState::Unseen, 0), SessionState::Admitted);
    assert_eq!(next_session(VisitPlan::Resume, joined, 0), SessionState::Admitted);
}

#[test]
fn ttl_is_minutes_times_sixty() {
    assert_eq!(ttl_seconds(0), 0);
    assert_eq!(ttl_seconds(5), 300);
    assert_eq!(ttl_seconds(1093), 65_580);
    assert_eq!(ttl_seconds(u16::MAX), 3_932_100);
}

#[test]
fn first_visitor_is_admitted_and_second_waits_at_position_one() {
    let mut store = StateStore::new(1);
    let cfg = settings();
    let v1 = id(0x11);
    let v2 = id(0x22);

    let first = visit(&mut store, SessionState::Unseen, v1, 1_000, &cfg);
    assert_eq!(first.plan, VisitPlan::Admit);
    assert_eq!(first.session, SessionState::Admitted);
    assert!(first.audit.is_none());
    let claims = first.claims.expect("an admitted visitor receives claims");
    assert_eq!(claims.qid, v1.to_text());
    let location = egress_location(&cfg.destination, "signed.token.text");
    assert_eq!(location, "https://shop.example?egress_token=signed.token.text");
    assert_eq!(store.active(), vec![v1]);
    assert!(store.queue().is_empty());
    assert!(store.marker_exists(v1, 1_000));

    let second = visit(&mut store, SessionState::Unseen, v2, 1_001, &cfg);
    assert_eq!(second.plan, VisitPlan::Enqueue);
    assert_eq!(second.session, SessionState::Enqueued { original_position: 1 });
    assert!(second.claims.is_none());
    assert_eq!(second.audit, Some(enqueue_event(v2)));
    assert_eq!(waiting_room_path(), "/waiting-room");
    assert_eq!(store.queue(), vec![v2]);
    assert_eq!(store.active(), vec![v1]);

    let shown = status(&store, Some(v2), second.session, String::from("12:00:00")).unwrap();
    assert_eq!(shown.position, 1);
    assert_eq!(shown.progress, 0);
    assert_eq!(shown.wait_time, "119 Minutes");
    assert_eq!(shown.last_updated, "12:00:00");
    assert!(shown.messages.is_empty());
}

#[test]
fn expired_visitor_is_replaced_by_the_next_in_line() {
    let mut store = StateStore::new(1);
    let cfg = settings();
    let v1 = id(1);
    let v2 = id(2);
    visit(&mut store, SessionState::Unseen, v1, 0, &cfg);
    visit(&mut store, SessionState::Unseen, v2, 1, &cfg);
    assert_eq!(store.get_queue_position(v2), Some(0));

    // The marker of v1 lasts 300 seconds and is gone at 300.
    assert!(store.marker_exists(v1, 299));
    assert!(!store.marker_exists(v1, 300));
    let report = store.tick(300, ttl_seconds(cfg.timeout_minutes));
    assert_eq!(report.evicted, vec![v1]);
    assert_eq!(report.promoted, vec![v2]);
    assert_eq!(store.active(), vec![v2]);
    assert!(store.queue().is_empty());
    assert!(store.marker_exists(v2, 300));
    assert!(store.marker_exists(v2, 599));
    assert!(!store.marker_exists(v2, 600));
}

#[test]
fn heartbeat_after_prune_does_not_bring_the_marker_back() {
    let mut store = StateStore::new(1);
    let cfg = settings();
    let v1 = id(7);
    let admitted = visit(&mut store, SessionState::Unseen, v1, 0, &cfg);
    let claims = admitted.claims.unwrap();
    let ttl = ttl_seconds(cfg.timeout_minutes);

    store.tick(400, ttl);
    assert!(!store.is_active(v1));

    let renewed = heartbeat(&mut store, Some(&claims), 500, ttl);
    assert_eq!(renewed, Ok(false));
    assert!(!store.marker_exists(v1, 500));
    assert!(!store.is_active(v1));
    assert!(store.active().is_empty());
}

#[test]
fn heartbeat_renews_a_live_marker() {
    let mut store = StateStore::new(2);
    let cfg = settings();
    let v1 = id(9);
    let claims = visit(&mut store, SessionState::Unseen, v1, 0, &cfg).claims.unwrap();
    let ttl = ttl_seconds(cfg.timeout_minutes);
    assert_eq!(heartbeat(&mut store, Some(&claims), 200, ttl), Ok(true));
    assert!(store.marker_exists(v1, 499));
    assert!(!store.marker_exists(v1, 500));
    let report = store.tick(400, ttl);
    assert!(report.evicted.is_empty());
    assert!(store.is_active(v1));
}

#[test]
fn heartbeat_rejects_bad_tokens_and_leaves_the_store_alone() {
    let mut store = StateStore::new(2);
    let cfg = settings();
    let v1 = id(9);
    let claims = visit(&mut store, SessionState::Unseen, v1, 100, &cfg).claims.unwrap();
    let ttl = ttl_seconds(cfg.timeout_minutes);

    assert_eq!(heartbeat(&mut store, None, 150, ttl), Err(TokenError::Unverified));
    assert_eq!(heartbeat(&mut store, Some(&claims), 99, ttl), Err(TokenError::NotYetValid));
    assert_eq!(heartbeat(&mut store, Some(&claims), 1_301, ttl), Err(TokenError::Expired));
    let mut forged = claims.clone();
    forged.qid = String::from("active");
    assert_eq!(heartbeat(&mut store, Some(&forged), 150, ttl), Err(TokenError::Malformed));
    // The marker set at 100 still ends at 400.
    assert!(store.marker_exists(v1, 399));
    assert!(!store.marker_exists(v1, 400));
}

#[test]
fn repeated_visits_keep_the_place_in_the_queue() {
    let mut store = StateStore::new(1);
    let cfg = settings();
    let ids = [id(1), id(2), id(3), id(4)];
    let mut sessions = [SessionState::Unseen; 4];
    for k in 0..4 {
        sessions[k] = visit(&mut store, sessions[k], ids[k], k as i64, &cfg).session;
    }
    assert_eq!(sessions[2], SessionState::Enqueued { original_position: 2 });
    let before = store.queue();
    for _ in 0..3 {
        let again = visit(&mut store, sessions[2], ids[2], 10, &cfg);
        assert_eq!(again.plan, VisitPlan::Wait);
        assert_eq!(again.session, sessions[2]);
        assert!(again.audit.is_none());
        assert!(again.claims.is_none());
    }
    assert_eq!(store.queue(), before);
    assert_eq!(store.get_queue_position(ids[2]), Some(1));
    assert_eq!(store.queue(), vec![ids[1], ids[2], ids[3]]);
}

#[test]
fn waiting_visitor_with_lost_session_records_current_position() {
    let mut store = StateStore::new(0);
    let cfg = settings();
    visit(&mut store, SessionState::Unseen, id(1), 0, &cfg);
    visit(&mut store, SessionState::Unseen, id(2), 0, &cfg);
    let again = visit(&mut store, SessionState::Unseen, id(2), 5, &cfg);
    assert_eq!(again.plan, VisitPlan::Wait);
    assert_eq!(again.session, SessionState::Enqueued { original_position: 2 });
}

#[test]
fn active_visitor_who_returns_is_never_enqueued() {
    let mut store = StateStore::new(1);
    let cfg = settings();
    let v1 = id(1);
    visit(&mut store, SessionState::Unseen, v1, 0, &cfg);
    let back = visit(&mut store, SessionState::Admitted, v1, 50, &cfg);
    assert_eq!(back.plan, VisitPlan::Resume);
    assert_eq!(back.session, SessionState::Admitted);
    assert_eq!(back.claims.unwrap().iat, 50);
    assert!(store.queue().is_empty());
    assert_eq!(store.active(), vec![v1]);
    // Going through again does not renew the marker set at 0.
    assert!(!store.marker_exists(v1, 300));
}

#[test]
fn promoted_visitor_goes_through_on_the_next_visit() {
    let mut store = StateStore::new(1);
    let cfg = settings();
    let ttl = ttl_seconds(cfg.timeout_minutes);
    visit(&mut store, SessionState::Unseen, id(1), 0, &cfg);
    let waiting = visit(&mut store, SessionState::Unseen, id(2), 0, &cfg).session;
    store.tick(300, ttl);
    let through = visit(&mut store, waiting, id(2), 310, &cfg);
    assert_eq!(through.plan, VisitPlan::Resume);
    assert_eq!(through.session, SessionState::Admitted);
    assert_eq!(through.claims.unwrap().qid, id(2).to_text());
}

#[test]
fn visitor_in_no_list_is_decided_anew() {
    let mut store = StateStore::new(1);
    let cfg = settings();
    let ttl = ttl_seconds(cfg.timeout_minutes);
    visit(&mut store, SessionState::Unseen, id(1), 0, &cfg);
    store.tick(1_000, ttl);
    assert!(!store.is_active(id(1)));
    let back = visit(&mut store, SessionState::Admitted, id(1), 1_001, &cfg);
    assert_eq!(back.plan, VisitPlan::Admit);
    assert!(store.is_active(id(1)));
    assert!(store.marker_exists(id(1), 1_300));
}

#[test]
fn queue_and_active_never_share_a_visitor() {
    let mut store = StateStore::new(2);
    let cfg = settings();
    let ttl = ttl_seconds(cfg.timeout_minutes);
    for round in 0..6i64 {
        for n in 1..=9u128 {
            visit(&mut store, SessionState::Unseen, id(n), round * 200, &cfg);
        }
        store.tick(round * 200 + 100, ttl);
        let queue = store.queue();
        let active = store.active();
        for q in &queue {
            assert!(!active.contains(q));
            assert_eq!(queue.iter().filter(|x| *x == q).count(), 1);
        }
        for a in &active {
            assert_eq!(active.iter().filter(|x| *x == a).count(), 1);
        }
        assert!(active.len() <= 2);
    }
}

#[test]
fn terminate_removes_from_active_and_is_idempotent() {
    let mut store = StateStore::new(3);
    let cfg = settings();
    visit(&mut store, SessionState::Unseen, id(1), 0, &cfg);
    visit(&mut store, SessionState::Unseen, id(2), 0, &cfg);
    let first = terminate_session(&mut store, &id(1).to_text());
    assert_eq!(first.removed, 1);
    assert_eq!(first.audit, terminate_event());
    assert_eq!(first.audit.topic, "terminate_session");
    assert_eq!(store.active(), vec![id(2)]);
    let second = terminate_session(&mut store, &id(1).to_text());
    assert_eq!(second.removed, 0);
    assert_eq!(store.active(), vec![id(2)]);
    let unreadable = terminate_session(&mut store, "not-an-identifier");
    assert_eq!(unreadable.removed, 0);
    assert_eq!(store.active(), vec![id(2)]);
    // The marker of a terminated visitor is left to expire.
    assert!(store.marker_exists(id(1), 10));
}

#[test]
fn status_without_identifier_and_for_visitors_who_do_not_wait() {
    let mut store = StateStore::new(1);
    let cfg = settings();
    visit(&mut store, SessionState::Unseen, id(1), 0, &cfg);
    let stamp = || String::from("08:15:00");
    assert_eq!(status(&store, None, SessionState::Unseen, stamp()), Err(StatusError::NoSession));
    let fallback = report(&store, None, SessionState::Unseen, stamp()).unwrap();
    assert_eq!((fallback.position, fallback.progress), (1, 0));
    assert_eq!(
        status(&store, Some(id(1)), SessionState::Admitted, stamp()),
        Err(StatusError::NotQueued)
    );
    assert_eq!(
        report(&store, Some(id(5)), SessionState::Unseen, stamp()),
        Err(StatusError::NotQueued)
    );
}

#[test]
fn status_progress_grows_as_the_queue_drains() {
    let mut store = StateStore::new(0);
    let cfg = settings();
    let mut last = SessionState::Unseen;
    for n in 1..=4u128 {
        last = visit(&mut store, SessionState::Unseen, id(n), 0, &cfg).session;
    }
    assert_eq!(last, SessionState::Enqueued { original_position: 4 });
    let at = |store: &StateStore| {
        let s = status(store, Some(id(4)), last, String::new()).unwrap();
        (s.position, s.progress)
    };
    assert_eq!(at(&store), (4, 0));
    store.set_capacity(1);
    store.tick(0, 100);
    assert_eq!(at(&store), (3, 25));
    store.set_capacity(3);
    store.tick(0, 100);
    assert_eq!(at(&store), (1, 75));
}
