use arc_trace::tracer::Tracer;

#[test]
fn new_tracer_has_issued_nothing() {
    let t = Tracer::new("payload".to_string());
    assert_eq!(t.name(), "payload");
    assert_eq!(t.next_id(), 0);
    assert_eq!(t.live_count(), 0);
    assert!(t.live_ids().is_empty());
}

#[test]
fn ids_are_issued_in_order_from_zero() {
    let mut t = Tracer::new("x".to_string());
    assert_eq!(t.get_next_id(), 0);
    assert_eq!(t.get_next_id(), 1);
    assert_eq!(t.get_next_id(), 2);
    assert_eq!(t.next_id(), 3);
    assert_eq!(t.live_ids(), vec![0, 1, 2]);
    assert!(t.is_live(1));
    assert!(t.location(2).is_some());
    assert!(t.location(3).is_none());
}

#[test]
fn drop_id_forgets_the_id() {
    let mut t = Tracer::new("x".to_string());
    t.get_next_id();
    t.get_next_id();
    t.drop_id(0);
    assert!(!t.is_live(0));
    assert!(t.location(0).is_none());
    assert_eq!(t.live_ids(), vec![1]);
    assert_eq!(t.live_count(), 1);
}

#[test]
fn dropping_an_unknown_id_is_a_no_op() {
    let mut t = Tracer::new("x".to_string());
    t.get_next_id();
    t.drop_id(7);
    t.drop_id(0);
    t.drop_id(0);
    assert_eq!(t.live_count(), 0);
    assert_eq!(t.next_id(), 1);
}

#[test]
fn released_ids_are_never_reissued() {
    let mut t = Tracer::new("x".to_string());
    let a = t.get_next_id();
    t.drop_id(a);
    let b = t.get_next_id();
    assert_eq!(b, 1);
    assert_eq!(t.live_ids(), vec![1]);
}

#[test]
fn live_count_is_issues_less_releases() {
    let mut t = Tracer::new("x".to_string());
    let mut issued: u64 = 0;
    let mut released: u64 = 0;
    for step in 0..20u64 {
        t.get_next_id();
        issued += 1;
        if step % 3 == 2 {
            t.drop_id(step - 1);
            released += 1;
        }
        assert_eq!(t.live_count() as u64, issued - released);
    }
    assert_eq!(t.live_ids().len() as u64, issued - released);
}

#[test]
fn traces_of_other_ids_survive_issue_and_release() {
    let mut t = Tracer::new("x".to_string());
    t.get_next_id();
    t.get_next_id();
    let before = format!("{}", t.location(0).unwrap());
    t.get_next_id();
    t.drop_id(1);
    assert!(t.location(0).is_some());
    assert!(t.location(2).is_some());
    assert_eq!(format!("{}", t.location(0).unwrap()), before);
}
