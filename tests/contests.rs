use judge_backend::{contest_detail, contest_detail_at, Contest, Instant, ProblemListEntry};

fn at(secs: i64, nanos: u32) -> Instant {
    Instant { secs, nanos }
}

fn contest(start: Instant, end: Instant) -> Contest {
    Contest { id: 3, name: "Spring Round".to_string(), start_date: start, end_date: end }
}

#[test]
fn ongoing_inside_and_at_both_ends() {
    let c = contest(at(100, 0), at(200, 500));
    assert!(c.is_ongoing(&at(150, 0)));
    assert!(c.is_ongoing(&at(100, 0)));
    assert!(c.is_ongoing(&at(200, 500)));
}

#[test]
fn not_ongoing_before_or_after() {
    let c = contest(at(100, 10), at(200, 500));
    assert!(!c.is_ongoing(&at(99, 999_999_999)));
    assert!(!c.is_ongoing(&at(100, 9)));
    assert!(!c.is_ongoing(&at(200, 501)));
    assert!(!c.is_ongoing(&at(201, 0)));
}

#[test]
fn ongoing_before_epoch() {
    let c = contest(at(-50, 0), at(-10, 0));
    assert!(c.is_ongoing(&at(-20, 7)));
    assert!(!c.is_ongoing(&at(0, 0)));
}

#[test]
fn empty_window_is_never_ongoing() {
    let c = contest(at(300, 0), at(200, 0));
    assert!(!c.is_ongoing(&at(250, 0)));
}

#[test]
fn instant_order() {
    assert!(at(1, 5).le(&at(1, 5)));
    assert!(at(1, 5).le(&at(2, 0)));
    assert!(!at(2, 0).le(&at(1, 999_999_999)));
}

#[test]
fn detail_at_fixed_time() {
    let problems = vec![
        ProblemListEntry { id: 1, name: "A".to_string() },
        ProblemListEntry { id: 2, name: "B".to_string() },
    ];
    let d = contest_detail_at(contest(at(100, 0), at(200, 0)), problems, at(250, 0));
    assert_eq!(d.id, 3);
    assert_eq!(d.name, "Spring Round");
    assert_eq!(d.starts_at, at(100, 0));
    assert_eq!(d.ends_at, at(200, 0));
    assert!(!d.ongoing);
    assert_eq!(d.problems.len(), 2);
    assert_eq!(d.problems[1].name, "B");
}

#[test]
fn detail_now_of_a_contest_spanning_all_time() {
    let d = contest_detail(contest(at(i64::MIN, 0), at(i64::MAX, 0)), Vec::new());
    assert!(d.ongoing);
    assert!(d.problems.is_empty());
}

#[test]
fn detail_now_of_a_past_contest() {
    let d = contest_detail(contest(at(0, 0), at(1, 0)), Vec::new());
    assert!(!d.ongoing);
}
