use zapit::{
    check_submission, classify_insert, is_valid_url, now_utc, prepare, submit, submit_now,
    Config, InsertOutcome, LinkStore, Submission, SubmitError, Timestamp,
};

fn sub(title: &str, link: &str, pub_date: Option<Timestamp>) -> Submission {
    Submission { title: title.to_string(), link: link.to_string(), pub_date }
}

fn at(secs: i64) -> Timestamp {
    Timestamp::new(secs, 0).unwrap()
}

#[test]
fn same_link_twice_is_a_duplicate() {
    let mut store = LinkStore::new();
    let first = submit(&mut store, sub("A", "https://example.com/x", None), at(1000));
    let second = submit(&mut store, sub("B", "https://example.com/x", Some(at(2000))), at(3000));
    assert_eq!(first, Ok(1));
    assert_eq!(second, Err(SubmitError::DuplicateLink));
    assert_eq!(store.len(), 1);
    assert_eq!(store.records()[0].title, "A");
}

#[test]
fn duplicate_in_the_other_order() {
    let mut store = LinkStore::new();
    let first = submit(&mut store, sub("B", "https://example.com/x", Some(at(2000))), at(3000));
    let second = submit(&mut store, sub("A", "https://example.com/x", None), at(1000));
    assert_eq!(first, Ok(1));
    assert_eq!(second, Err(SubmitError::DuplicateLink));
    assert_eq!(store.len(), 1);
}

#[test]
fn ids_rise_from_one() {
    let mut store = LinkStore::new();
    assert_eq!(submit(&mut store, sub("a", "https://a.example/", None), at(1)), Ok(1));
    assert_eq!(submit(&mut store, sub("b", "https://b.example/", None), at(2)), Ok(2));
    assert_eq!(submit(&mut store, sub("c", "https://c.example/", None), at(3)), Ok(3));
    let ids: Vec<i64> = store.records().iter().map(|r| r.id).collect();
    assert_eq!(ids, vec![1, 2, 3]);
}

#[test]
fn missing_date_takes_now() {
    let mut store = LinkStore::new();
    submit(&mut store, sub("a", "https://a.example/", None), at(12345)).unwrap();
    assert_eq!(store.records()[0].pub_date, at(12345));
}

#[test]
fn given_date_is_kept() {
    let mut store = LinkStore::new();
    let t = Timestamp::new(777, 5).unwrap();
    submit(&mut store, sub("a", "https://a.example/", Some(t)), at(12345)).unwrap();
    assert_eq!(store.records()[0].pub_date, t);
}

#[test]
fn default_date_is_the_wall_clock() {
    let mut store = LinkStore::new();
    let before = chrono::Utc::now().timestamp();
    submit_now(&mut store, sub("a", "https://a.example/", None)).unwrap();
    let after = chrono::Utc::now().timestamp();
    let stored = store.records()[0].pub_date.secs;
    assert!(before <= stored && stored <= after);
}

#[test]
fn default_dates_differ_seconds_apart() {
    let mut store = LinkStore::new();
    submit_now(&mut store, sub("a", "https://a.example/", None)).unwrap();
    let start = chrono::Utc::now().timestamp();
    while chrono::Utc::now().timestamp() < start + 2 {}
    submit_now(&mut store, sub("b", "https://b.example/", None)).unwrap();
    let first = store.records()[0].pub_date;
    let second = store.records()[1].pub_date;
    assert_ne!(first, second);
    assert!(second.secs >= first.secs + 1);
}

#[test]
fn not_a_url_is_rejected() {
    let mut store = LinkStore::new();
    let r = submit(&mut store, sub("A", "not a url", None), at(1));
    assert_eq!(r, Err(SubmitError::Validation));
    assert_eq!(store.len(), 0);
}

#[test]
fn invalid_given_date_is_rejected() {
    let mut store = LinkStore::new();
    let bad = Timestamp { secs: 0, nanos: 1_000_000_000 };
    let r = submit(&mut store, sub("A", "https://example.com/x", Some(bad)), at(1));
    assert_eq!(r, Err(SubmitError::Validation));
    assert_eq!(store.len(), 0);
}

#[test]
fn url_check() {
    assert!(is_valid_url("https://example.com/x"));
    assert!(!is_valid_url("not a url"));
    assert!(!is_valid_url(""));
}

#[test]
fn check_submission_stamps() {
    let n = check_submission(sub("t", "https://example.com/", None), true, at(9)).unwrap();
    assert_eq!(n.title, "t");
    assert_eq!(n.link, "https://example.com/");
    assert_eq!(n.pub_date, at(9));
    let e = check_submission(sub("t", "https://example.com/", None), false, at(9));
    assert!(matches!(e, Err(SubmitError::Validation)));
}

#[test]
fn prepare_validates() {
    assert!(matches!(prepare(sub("t", "nope", None), at(9)), Err(SubmitError::Validation)));
    let n = prepare(sub("t", "https://example.com/", Some(at(4))), at(9)).unwrap();
    assert_eq!(n.pub_date, at(4));
}

#[test]
fn store_answers_are_classified() {
    assert_eq!(classify_insert(InsertOutcome::Inserted(7)), Ok(7));
    assert_eq!(classify_insert(InsertOutcome::UniqueViolation), Err(SubmitError::DuplicateLink));
    assert_eq!(classify_insert(InsertOutcome::Failed), Err(SubmitError::InternalStore));
}

#[test]
fn timestamp_bounds() {
    assert!(Timestamp::new(-62167219200, 0).is_some());
    assert!(Timestamp::new(-62167219201, 0).is_none());
    assert!(Timestamp::new(253402300799, 999_999_999).is_some());
    assert!(Timestamp::new(253402300800, 0).is_none());
    assert!(Timestamp::new(0, 1_000_000_000).is_none());
    assert!(now_utc().is_some());
}

#[test]
fn config_defaults() {
    let c = Config::resolve(None, None, None, None);
    assert_eq!(c.database_url, "sqlite:db.sqlite");
    assert_eq!(c.listen_addr, "0.0.0.0:3000");
    assert_eq!(c.domain, "localhost");
}

#[test]
fn config_values_given() {
    let c = Config::resolve(
        Some("sqlite:other.db".to_string()),
        Some("8080".to_string()),
        Some("127.0.0.1".to_string()),
        Some("https://links.example".to_string()),
    );
    assert_eq!(c.database_url, "sqlite:other.db");
    assert_eq!(c.listen_addr, "127.0.0.1:8080");
    assert_eq!(c.domain, "https://links.example");
}
