use thought_train::thought::Thought;

#[test]
fn from_row_reads_nonzero_pin_flag_as_pinned() {
    let t = Thought::from_row(5, "x".into(), "Work".into(), "2024-05-01 10:00:00".into(), 1);
    assert!(t.pinned);
    assert_eq!(t.id, 5);
    assert_eq!(t.text, "x");
    assert_eq!(t.category, "Work");
    assert_eq!(t.created_at, "2024-05-01 10:00:00");
    assert!(Thought::from_row(5, "x".into(), "W".into(), "d".into(), -3).pinned);
    assert!(!Thought::from_row(5, "x".into(), "W".into(), "d".into(), 0).pinned);
}

#[test]
fn clone_copies_every_field() {
    let t = Thought::from_row(9, "a".into(), "b".into(), "c".into(), 0);
    let u = t.clone();
    assert_eq!((u.id, u.text, u.category, u.created_at, u.pinned), (9, "a".to_string(), "b".to_string(), "c".to_string(), false));
}
