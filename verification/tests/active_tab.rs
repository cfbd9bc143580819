use voicetabs::routing::{tab_from_raw, ActiveTab};

#[test]
fn default_is_none() {
    let a = ActiveTab::new();
    assert_eq!(a.snapshot(), None);
}

#[test]
fn set_then_snapshot_round_trips() {
    let a = ActiveTab::new();
    a.set(42);
    assert_eq!(a.snapshot(), Some(42));
}

#[test]
fn set_zero_clears() {
    let a = ActiveTab::new();
    a.set(42);
    a.set(0);
    assert_eq!(a.snapshot(), None);
}

#[test]
fn snapshot_is_a_value_not_a_reference() {
    let a = ActiveTab::new();
    a.set(1);
    let captured = a.snapshot();
    // Later writes don't move the captured value.
    a.set(2);
    a.set(3);
    a.set(0);
    a.set(99);
    assert_eq!(captured, Some(1));
}

#[test]
fn clones_share_the_active_tab() {
    let a = ActiveTab::default();
    let b = a.clone();
    b.set(7);
    assert_eq!(a.snapshot(), Some(7));
}

#[test]
fn raw_zero_is_no_tab() {
    assert_eq!(tab_from_raw(0), None);
    assert_eq!(tab_from_raw(5), Some(5));
    assert_eq!(tab_from_raw(-3), Some(-3));
}
