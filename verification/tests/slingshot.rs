use slingshot_settle::geom::Vec2i;
use slingshot_settle::resources::BirdState;
use slingshot_settle::resources::PhysicsState;
use slingshot_settle::resources::game_state_control;
use slingshot_settle::systems::SlingshotAction;
use slingshot_settle::systems::bird_slingshot;
use slingshot_settle::systems::camera_drag;

const ANCHOR: Vec2i = Vec2i { x: 100_000, y: 200_000 };

#[test]
fn drag_holds_bird_at_clamped_offset() {
    let mut state = BirdState::default();
    let cursor = Vec2i { x: ANCHOR.x + 30_000, y: ANCHOR.y + 40_000 };
    let action = bird_slingshot(&mut state, ANCHOR, Some(cursor), true, false);
    assert!(state.dragging);
    assert!(!state.launched);
    assert_eq!(
        action,
        SlingshotAction::Hold {
            position: Vec2i { x: ANCHOR.x + 30_000, y: ANCHOR.y + 40_000 },
            aim_to: Vec2i { x: ANCHOR.x - 30_000, y: ANCHOR.y - 40_000 },
        }
    );
}

#[test]
fn overdraw_is_clamped_to_max_distance() {
    // The cursor is 500000 milli-units away; the draw caps at 120000,
    // scaling the offset (300000, 400000) to (72000, 96000).
    let mut state = BirdState::default();
    let cursor = Vec2i { x: ANCHOR.x + 300_000, y: ANCHOR.y + 400_000 };
    let action = bird_slingshot(&mut state, ANCHOR, Some(cursor), true, false);
    assert_eq!(
        action,
        SlingshotAction::Hold {
            position: Vec2i { x: ANCHOR.x + 72_000, y: ANCHOR.y + 96_000 },
            aim_to: Vec2i { x: ANCHOR.x - 72_000, y: ANCHOR.y - 96_000 },
        }
    );
}

#[test]
fn release_launches_opposite_the_drag() {
    let mut state = BirdState { dragging: true, launched: false };
    let cursor = Vec2i { x: ANCHOR.x + 30_000, y: ANCHOR.y + 40_000 };
    let action = bird_slingshot(&mut state, ANCHOR, Some(cursor), false, true);
    assert!(state.launched);
    assert!(!state.dragging);
    assert_eq!(
        action,
        SlingshotAction::Launch {
            impulse: Vec2i { x: -300_000_000, y: -400_000_000 },
        }
    );
}

#[test]
fn release_after_overdraw_launches_clamped_impulse() {
    let mut state = BirdState { dragging: true, launched: false };
    let cursor = Vec2i { x: ANCHOR.x + 300_000, y: ANCHOR.y + 400_000 };
    let action = bird_slingshot(&mut state, ANCHOR, Some(cursor), false, true);
    assert!(state.launched);
    assert_eq!(
        action,
        SlingshotAction::Launch {
            impulse: Vec2i { x: -720_000_000, y: -960_000_000 },
        }
    );
}

#[test]
fn launched_controller_is_inert() {
    let mut state = BirdState { dragging: false, launched: true };
    let cursor = Vec2i { x: ANCHOR.x + 30_000, y: ANCHOR.y + 40_000 };
    // Even a held button no longer moves the bird.
    let action = bird_slingshot(&mut state, ANCHOR, Some(cursor), true, false);
    assert_eq!(action, SlingshotAction::Idle);
    assert_eq!(state, BirdState { dragging: false, launched: true });
    let action = bird_slingshot(&mut state, ANCHOR, Some(cursor), false, true);
    assert_eq!(action, SlingshotAction::Idle);
    assert_eq!(state, BirdState { dragging: false, launched: true });
}

#[test]
fn absent_cursor_is_a_no_op() {
    let mut state = BirdState { dragging: true, launched: false };
    let action = bird_slingshot(&mut state, ANCHOR, None, true, true);
    assert_eq!(action, SlingshotAction::Idle);
    assert_eq!(state, BirdState { dragging: true, launched: false });
}

#[test]
fn release_without_drag_is_a_no_op() {
    let mut state = BirdState::default();
    let cursor = Vec2i { x: ANCHOR.x + 30_000, y: ANCHOR.y + 40_000 };
    let action = bird_slingshot(&mut state, ANCHOR, Some(cursor), false, true);
    assert_eq!(action, SlingshotAction::Idle);
    assert_eq!(state, BirdState::default());
}

#[test]
fn restart_resets_both_states() {
    let mut bird = BirdState { dragging: false, launched: true };
    let mut phys = PhysicsState { hash: String::from("abc"), step: 41 };
    game_state_control(true, &mut bird, &mut phys);
    assert!(!bird.dragging);
    assert!(!bird.launched);
    assert_eq!(phys.step, 0);
    assert!(phys.hash.is_empty());
}

#[test]
fn no_restart_changes_nothing() {
    let mut bird = BirdState { dragging: true, launched: false };
    let mut phys = PhysicsState { hash: String::from("abc"), step: 41 };
    game_state_control(false, &mut bird, &mut phys);
    assert_eq!(bird, BirdState { dragging: true, launched: false });
    assert_eq!(phys.step, 41);
    assert_eq!(phys.hash, "abc");
}

#[test]
fn camera_pan_follows_the_pointer() {
    let cam = Vec2i { x: 500_000, y: 600_000 };
    let last = Vec2i { x: 10_000, y: 20_000 };
    let cursor = Vec2i { x: 13_000, y: 18_000 };
    let (new_cam, remembered) = camera_drag(cam, Some(last), Some(cursor), true);
    assert_eq!(new_cam, Vec2i { x: 500_000 - 3_000, y: 600_000 - 2_000 });
    assert_eq!(remembered, Some(cursor));
}

#[test]
fn camera_pan_first_tick_only_remembers() {
    let cam = Vec2i { x: 500_000, y: 600_000 };
    let cursor = Vec2i { x: 13_000, y: 18_000 };
    let (new_cam, remembered) = camera_drag(cam, None, Some(cursor), true);
    assert_eq!(new_cam, cam);
    assert_eq!(remembered, Some(cursor));
}

#[test]
fn camera_pan_released_button_forgets() {
    let cam = Vec2i { x: 500_000, y: 600_000 };
    let last = Vec2i { x: 10_000, y: 20_000 };
    let (new_cam, remembered) = camera_drag(cam, Some(last), Some(last), false);
    assert_eq!(new_cam, cam);
    assert_eq!(remembered, None);
}
