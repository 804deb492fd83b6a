use rose::controls::Controls;

#[test]
fn fresh_controls_are_idle() {
    let c = Controls::new(4);
    assert_eq!(c.hovered, vec![false; 4]);
    assert_eq!(c.dragging, None);
    assert!(!c.invalidated);
}

#[test]
fn drag_starts_on_the_first_handle_under_the_pointer() {
    let mut c = Controls::new(4);
    c.pointer_down(&vec![false, true, true, false]);
    assert_eq!(c.dragging, Some(1));
    assert!(c.invalidated);
}

#[test]
fn drag_does_not_start_away_from_every_handle() {
    let mut c = Controls::new(4);
    c.pointer_down(&vec![false, false, false, false]);
    assert_eq!(c.dragging, None);
    assert!(c.invalidated);
}

#[test]
fn moving_updates_hover_and_reports_the_dragged_handle() {
    let mut c = Controls::new(3);
    let dragged = c.pointer_move(&vec![false, false, true]);
    assert_eq!(dragged, None);
    assert_eq!(c.hovered, vec![false, false, true]);

    c.pointer_down(&vec![false, false, true]);
    assert_eq!(c.dragging, Some(2));

    // While dragging, each move reports the handle that follows the pointer.
    let dragged = c.pointer_move(&vec![false, false, false]);
    assert_eq!(dragged, Some(2));
    assert_eq!(c.hovered, vec![false, false, false]);
    // The drag survives leaving the handle's hover radius.
    assert_eq!(c.dragging, Some(2));
}

#[test]
fn releasing_ends_the_drag_and_names_the_dropped_handle() {
    let mut c = Controls::new(2);
    c.pointer_down(&vec![true, false]);
    assert_eq!(c.dragging, Some(0));
    let dropped = c.pointer_up();
    assert_eq!(dropped, Some(0));
    assert_eq!(c.dragging, None);

    // A release with no drag underway drops nothing.
    let dropped = c.pointer_up();
    assert_eq!(dropped, None);
}

#[test]
fn every_event_invalidates_and_the_flag_is_consumed_once() {
    let mut c = Controls::new(2);
    assert!(!c.take_invalidation());

    c.key_press();
    assert!(c.take_invalidation());
    assert!(!c.take_invalidation());

    c.pointer_move(&vec![false, false]);
    assert!(c.take_invalidation());

    c.pointer_down(&vec![false, false]);
    assert!(c.take_invalidation());

    c.pointer_up();
    assert!(c.take_invalidation());
    assert!(!c.take_invalidation());
}
