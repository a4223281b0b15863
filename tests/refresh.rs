use relay::record::Record;
use relay::refresh::{
    finish_renewal, jitter_window, plan_renewals, refresh_credential, renewal_delay,
    select_for_renewal, Action, Engine, Event, Phase, Renewal, AVG_UPDATES_PER_MINUTE,
    LONG_SLEEP_SECS, SHORT_SLEEP_SECS, UPDATE_THRESHOLD_SECS,
};
use relay::store::SessionStore;
use relay::token::AccessToken;

fn token(access: &str, refresh: &str, expires_in: i32, issued_at: i64) -> AccessToken {
    AccessToken {
        access_token: access.to_owned(),
        expires_in,
        refresh_token: refresh.to_owned(),
        token_type: "Bearer".to_owned(),
        ctime: issued_at,
    }
}

fn session(t: &AccessToken) -> Record {
    let mut r = Record::new();
    r.insert("token".to_owned(), t.to_json());
    r.insert("other".to_owned(), "\"x\"".to_owned());
    r
}

#[test]
fn sweep_selects_sessions_at_or_below_threshold() {
    let probes = vec![
        ("a".to_owned(), Some(100)),
        ("b".to_owned(), Some(14_400)),
        ("c".to_owned(), Some(14_401)),
        ("d".to_owned(), Some(5)),
    ];
    let due = select_for_renewal(&probes, 14_400);
    assert_eq!(due, vec!["a".to_owned(), "b".to_owned(), "d".to_owned()]);
    assert_eq!(UPDATE_THRESHOLD_SECS, 14_400);
}

#[test]
fn failed_probes_are_left_out() {
    let probes = vec![("a".to_owned(), None), ("b".to_owned(), Some(-2)), ("c".to_owned(), None)];
    assert_eq!(select_for_renewal(&probes, 14_400), vec!["b".to_owned()]);
    assert!(select_for_renewal(&Vec::new(), 14_400).is_empty());
}

#[test]
fn jitter_window_spreads_batch_at_target_rate() {
    assert_eq!(AVG_UPDATES_PER_MINUTE, 50);
    assert_eq!(jitter_window(500, 50), 600);
    assert_eq!(jitter_window(0, 50), 0);
    assert_eq!(jitter_window(1, 120), 0);
    assert_eq!(jitter_window(49, 50), 0);
    assert_eq!(jitter_window(50, 50), 60);
    assert_eq!(jitter_window(99, 50), 60);
    assert_eq!(jitter_window(u64::MAX, 1), u64::MAX);
}

#[test]
fn delays_of_large_batch_stay_in_window() {
    let keys: Vec<String> = (0..500).map(|i| format!("k{}", i)).collect();
    let plan = plan_renewals(keys.clone(), 50);
    assert_eq!(plan.len(), 500);
    for (i, (k, d)) in plan.iter().enumerate() {
        assert_eq!(k, &keys[i]);
        assert!(*d < 600);
    }
    assert!(plan.iter().any(|(_, d)| *d >= 10));
}

#[test]
fn small_batch_is_issued_at_once() {
    let plan = plan_renewals(vec!["a".to_owned(), "b".to_owned()], 50);
    assert!(plan.iter().all(|(_, d)| *d == 0));
    let few: Vec<String> = (0..49).map(|i| format!("k{}", i)).collect();
    assert!(plan_renewals(few, 50).iter().all(|(_, d)| *d == 0));
    let hundred: Vec<String> = (0..100).map(|i| format!("k{}", i)).collect();
    assert!(plan_renewals(hundred, 50).iter().all(|(_, d)| *d < 120));
    assert_eq!(renewal_delay(0), 0);
    assert!(renewal_delay(3) < 3);
}

#[test]
fn credential_of_session_record() {
    let r = session(&token("A0", "R0", 60, 1));
    assert_eq!(refresh_credential(&r).as_deref(), Some("R0"));
    let mut bare = Record::new();
    bare.insert("other".to_owned(), "1".to_owned());
    assert_eq!(refresh_credential(&bare), None);
    bare.insert("token".to_owned(), "\"broken\"".to_owned());
    assert_eq!(refresh_credential(&bare), None);
}

#[test]
fn upstream_failure_removes_session() {
    let mut store = SessionStore::new();
    let t0 = token("A0", "invalid", 60, 1);
    store.set("S1".to_owned(), session(&t0), 60);
    let record = store.get("S1").unwrap();
    match finish_renewal(&mut store, "S1".to_owned(), record, None, 100) {
        Renewal::Removed(k) => assert_eq!(k, "S1"),
        Renewal::Renewed(_) => panic!("a failed renewal must not write"),
    }
    assert!(store.get("S1").is_none());
}

#[test]
fn malformed_upstream_answer_removes_session() {
    let mut store = SessionStore::new();
    store.set("S1".to_owned(), session(&token("A0", "R0", 60, 1)), 60);
    let record = store.get("S1").unwrap();
    let out = finish_renewal(&mut store, "S1".to_owned(), record, Some("{\"error\":\"invalid_grant\"}".to_owned()), 5);
    assert!(matches!(out, Renewal::Removed(_)));
    assert!(store.get("S1").is_none());
}

#[test]
fn zero_lifetime_token_is_written_back() {
    let mut store = SessionStore::new();
    store.set("S".to_owned(), session(&token("A0", "R0", 60, 1)), 60);
    let record = store.get("S").unwrap();
    let answer = token("A1", "R1", 0, 0).to_json();
    let out = finish_renewal(&mut store, "S".to_owned(), record, Some(answer), 5);
    match out {
        Renewal::Renewed(w) => assert_eq!(w.ttl_secs, 0),
        Renewal::Removed(_) => panic!("a zero lifetime is still a successful renewal"),
    }
    let got = store.get("S").unwrap();
    assert_eq!(got.get("token"), Some(token("A1", "R1", 0, 0).to_json()));
    assert_eq!(got.get("other").as_deref(), Some("\"x\""));
}

#[test]
fn negative_lifetime_counts_as_failure() {
    let mut store = SessionStore::new();
    store.set("S".to_owned(), session(&token("A0", "R0", 60, 1)), 60);
    let record = store.get("S").unwrap();
    let answer = token("A1", "R1", -5, 0).to_json();
    let out = finish_renewal(&mut store, "S".to_owned(), record, Some(answer), 5);
    assert!(matches!(out, Renewal::Removed(_)));
    assert!(store.get("S").is_none());
}

#[test]
fn upstream_success_replaces_token_only() {
    let mut store = SessionStore::new();
    let t0 = token("A0", "R0", 60, 1);
    store.set("S2".to_owned(), session(&t0), 60);
    let record = store.get("S2").unwrap();
    let answer = "{\"token_type\":\"Bearer\",\"expires_in\":3600,\"access_token\":\"A1\",\"refresh_token\":\"R1\"}";
    let out = finish_renewal(&mut store, "S2".to_owned(), record, Some(answer.to_owned()), 1_000);
    let w = match out {
        Renewal::Renewed(w) => w,
        Renewal::Removed(_) => panic!("a successful renewal must write"),
    };
    assert_eq!(w.key, "S2");
    assert_eq!(w.ttl_secs, 3_600);
    let t1 = token("A1", "R1", 3_600, 1_000);
    let got = store.get("S2").unwrap();
    assert_eq!(got.get("token"), Some(t1.to_json()));
    assert_eq!(got.get("other").as_deref(), Some("\"x\""));
    assert_eq!(w.text, got.to_json());
    let back = AccessToken::from_json(&got.get("token").unwrap(), 0).unwrap();
    assert_eq!(back.access_token, "A1");
    assert_eq!(back.ctime, 1_000);
}

#[test]
fn engine_runs_a_full_sweep() {
    let mut e = Engine::new();
    assert_eq!(e.phase(), Phase::Idle);
    assert!(matches!(e.step(Event::Start), Action::ListKeys));
    assert_eq!(e.phase(), Phase::Scanning);
    match e.step(Event::KeysListed(vec!["a".to_owned(), "b".to_owned()])) {
        Action::ProbeTtls(k) => assert_eq!(k, vec!["a".to_owned(), "b".to_owned()]),
        _ => panic!("expected a probe"),
    }
    assert_eq!(e.phase(), Phase::Probing);
    let probes = vec![("a".to_owned(), Some(100)), ("b".to_owned(), Some(20_000))];
    match e.step(Event::TtlsProbed(probes)) {
        Action::Renew(plan) => {
            assert_eq!(plan.len(), 1);
            assert_eq!(plan[0], ("a".to_owned(), 0));
        }
        _ => panic!("expected renewals"),
    }
    assert_eq!(e.phase(), Phase::Renewing);
    assert!(matches!(e.step(Event::RenewalsDone(1, 0)), Action::Sleep(s) if s == LONG_SLEEP_SECS));
    assert_eq!(e.phase(), Phase::Sleeping);
    assert!(matches!(e.step(Event::Woke), Action::Nothing));
    assert_eq!(e.phase(), Phase::Idle);
}

#[test]
fn engine_retries_soon_after_failed_scan() {
    let mut e = Engine::new();
    e.step(Event::Start);
    assert!(matches!(e.step(Event::ScanFailed), Action::Sleep(s) if s == SHORT_SLEEP_SECS));
    assert_eq!(e.phase(), Phase::Sleeping);
    let mut p = Engine::with_limits(10, 50);
    p.step(Event::Start);
    p.step(Event::KeysListed(vec![]));
    assert!(matches!(p.step(Event::ScanFailed), Action::Sleep(30)));
}

#[test]
fn engine_ignores_events_out_of_turn() {
    let mut e = Engine::new();
    assert!(matches!(e.step(Event::Woke), Action::Nothing));
    assert!(matches!(e.step(Event::ScanFailed), Action::Nothing));
    assert_eq!(e.phase(), Phase::Idle);
}

#[test]
fn renewals_finish_in_either_order() {
    let answer = "{\"token_type\":\"Bearer\",\"expires_in\":3600,\"access_token\":\"A1\",\"refresh_token\":\"R1\"}";
    let mut outcomes = Vec::new();
    for first_is_a in [true, false] {
        let mut store = SessionStore::new();
        store.set("a".to_owned(), session(&token("A0", "R0", 60, 1)), 60);
        store.set("b".to_owned(), session(&token("B0", "Q0", 60, 1)), 60);
        let ra = store.get("a").unwrap();
        let rb = store.get("b").unwrap();
        if first_is_a {
            finish_renewal(&mut store, "a".to_owned(), ra, Some(answer.to_owned()), 9);
            finish_renewal(&mut store, "b".to_owned(), rb, None, 9);
        } else {
            finish_renewal(&mut store, "b".to_owned(), rb, None, 9);
            finish_renewal(&mut store, "a".to_owned(), ra, Some(answer.to_owned()), 9);
        }
        outcomes.push((store.get("a").map(|r| r.to_json()), store.get("b").map(|r| r.to_json())));
    }
    assert_eq!(outcomes[0], outcomes[1]);
    assert!(outcomes[0].0.is_some());
    assert!(outcomes[0].1.is_none());
}
