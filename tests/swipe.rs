use ukeep::gesture::{
    GestureState, Notification, PointerEvent, SwipeAction, SwipeController, Transition,
    SWIPE_THRESHOLD,
};
use ukeep::item::ItemId;

fn neutral() -> GestureState {
    GestureState { drag_offset: 0, start_x: 0, is_dragging: false, pending: None }
}

#[test]
fn drag_past_threshold_then_release_consumes() {
    let id = ItemId(11);
    let mut c = SwipeController::new(id);
    c.pointer_down(100);
    c.pointer_move(175);
    assert_eq!(c.drag_offset(), 75);
    assert_eq!(c.pending_action(), None);
    c.pointer_move(185);
    assert_eq!(c.drag_offset(), 85);
    assert_eq!(c.pending_action(), Some(SwipeAction::Consume));
    assert_eq!(c.pointer_up(), Some(Notification::Consume(id)));
    assert_eq!(c.state(), neutral());
}

#[test]
fn short_drag_is_silent() {
    let mut c = SwipeController::new(ItemId(1));
    c.pointer_down(300);
    c.pointer_move(379);
    assert_eq!(c.pending_action(), None);
    assert_eq!(c.pointer_up(), None);
    assert_eq!(c.state(), neutral());
    c.pointer_down(300);
    c.pointer_move(221);
    assert_eq!(c.pointer_cancel(), None);
    assert_eq!(c.state(), neutral());
}

#[test]
fn reversed_drag_is_silent() {
    let mut c = SwipeController::new(ItemId(1));
    c.pointer_down(0);
    c.pointer_move(120);
    assert_eq!(c.pending_action(), Some(SwipeAction::Consume));
    c.pointer_move(10);
    assert_eq!(c.pending_action(), None);
    assert_eq!(c.pointer_up(), None);
}

#[test]
fn left_drag_discards_on_release_or_cancel() {
    let id = ItemId(5);
    let mut c = SwipeController::new(id);
    c.pointer_down(200);
    c.pointer_move(120);
    assert_eq!(c.pending_action(), Some(SwipeAction::Discard));
    assert_eq!(c.pointer_up(), Some(Notification::Discard(id)));
    c.pointer_down(200);
    c.pointer_move(50);
    assert_eq!(c.pointer_cancel(), Some(Notification::Discard(id)));
    assert_eq!(c.state(), neutral());
}

#[test]
fn threshold_is_inclusive_both_ways() {
    let id = ItemId(2);
    let mut c = SwipeController::new(id);
    c.pointer_down(0);
    c.pointer_move(SWIPE_THRESHOLD as i32);
    assert_eq!(c.pending_action(), Some(SwipeAction::Consume));
    c.pointer_move(-(SWIPE_THRESHOLD as i32));
    assert_eq!(c.pending_action(), Some(SwipeAction::Discard));
    c.pointer_move(-79);
    assert_eq!(c.pending_action(), None);
}

#[test]
fn leaving_mid_drag_resets_without_report() {
    let mut c = SwipeController::new(ItemId(3));
    c.pointer_down(10);
    c.pointer_move(200);
    assert_eq!(c.pending_action(), Some(SwipeAction::Consume));
    c.pointer_leave();
    assert_eq!(c.state(), neutral());
    assert_eq!(c.pointer_up(), None);
}

#[test]
fn idle_events_are_ignored() {
    let mut c = SwipeController::new(ItemId(3));
    c.pointer_move(500);
    assert_eq!(c.state(), neutral());
    c.pointer_leave();
    assert_eq!(c.pointer_up(), None);
    assert_eq!(c.pointer_cancel(), None);
    assert_eq!(c.state(), neutral());
}

#[test]
fn second_press_restarts_tracking() {
    let mut c = SwipeController::new(ItemId(3));
    c.pointer_down(0);
    c.pointer_move(150);
    c.pointer_down(400);
    assert_eq!(c.drag_offset(), 0);
    assert_eq!(c.pending_action(), None);
    c.pointer_move(420);
    assert_eq!(c.drag_offset(), 20);
    assert_eq!(c.pointer_up(), None);
}

#[test]
fn extreme_coordinates() {
    let id = ItemId(9);
    let mut c = SwipeController::new(id);
    c.pointer_down(i32::MIN);
    c.pointer_move(i32::MAX);
    assert_eq!(c.drag_offset(), (i32::MAX as i64) - (i32::MIN as i64));
    assert_eq!(c.reveal_level(), 80);
    assert_eq!(c.pointer_up(), Some(Notification::Consume(id)));
}

#[test]
fn reveal_ramps_and_clamps() {
    let mut c = SwipeController::new(ItemId(4));
    assert_eq!(c.reveal_level(), 0);
    c.pointer_down(100);
    let mut last = 0;
    for x in 100..=180 {
        c.pointer_move(x);
        let level = c.reveal_level();
        assert_eq!(level, (x - 100) as i64);
        assert!(level >= last);
        last = level;
    }
    c.pointer_move(400);
    assert_eq!(c.reveal_level(), 80);
    c.pointer_move(60);
    assert_eq!(c.reveal_level(), 40);
    c.pointer_move(-300);
    assert_eq!(c.reveal_level(), 80);
}

#[test]
fn transition_follows_dragging() {
    let mut c = SwipeController::new(ItemId(4));
    assert_eq!(c.transition(), Transition::SnapBack);
    assert_eq!(c.transition().css(), "transform 200ms ease-out");
    c.pointer_down(1);
    assert!(c.is_dragging());
    assert_eq!(c.transition(), Transition::Immediate);
    assert_eq!(c.transition().css(), "none");
}

#[test]
fn buttons_report_directly() {
    let id = ItemId(77);
    let mut c = SwipeController::new(id);
    c.pointer_down(0);
    c.pointer_move(30);
    assert_eq!(c.consume_now(), Notification::Consume(id));
    assert_eq!(c.discard_now(), Notification::Discard(id));
    assert_eq!(c.drag_offset(), 30);
    assert_eq!(c.item_id(), id);
}

#[test]
fn a_run_of_events() {
    let id = ItemId(8);
    let mut c = SwipeController::new(id);
    let evs = vec![
        PointerEvent::Down(100),
        PointerEvent::Move(175),
        PointerEvent::Move(185),
        PointerEvent::Up,
        PointerEvent::Down(0),
        PointerEvent::Move(-90),
        PointerEvent::Leave,
        PointerEvent::Down(0),
        PointerEvent::Move(-90),
        PointerEvent::Cancel,
    ];
    assert_eq!(
        c.handle_all(&evs),
        vec![Notification::Consume(id), Notification::Discard(id)]
    );
    assert_eq!(c.state(), neutral());
}
