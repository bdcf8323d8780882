use cube_camera::control::{
    CameraControl, Focus, KeyInput, KeyState, MoveHorizontal, MoveVertical, TargetChange,
    DOWN_KEY, LEFT_KEY, RIGHT_KEY, STEP_DISTANCE_HUNDREDTHS, TARGET_DISTANCE, TOGGLE_TARGET_KEY,
    UP_KEY,
};

fn press(scancode: u32) -> KeyInput {
    KeyInput { scancode, state: KeyState::Pressed }
}

fn release(scancode: u32) -> KeyInput {
    KeyInput { scancode, state: KeyState::Released }
}

#[test]
fn new_camera_is_locked_without_intents() {
    let c = CameraControl::new();
    assert!(c.locked);
    assert_eq!(c.vertical, None);
    assert_eq!(c.horizontal, None);
}

#[test]
fn up_press_sets_intent_and_is_handled() {
    let mut c = CameraControl::new();
    let r = c.handle_keys(press(UP_KEY));
    assert!(r.handled);
    assert_eq!(r.target, TargetChange::Keep);
    assert_eq!(c.vertical, Some(MoveVertical::Up));
}

#[test]
fn second_vertical_press_does_not_override() {
    let mut c = CameraControl::new();
    c.handle_keys(press(UP_KEY));
    let r = c.handle_keys(press(DOWN_KEY));
    assert!(!r.handled);
    assert_eq!(c.vertical, Some(MoveVertical::Up));
}

#[test]
fn release_of_other_vertical_key_clears_intent() {
    let mut c = CameraControl::new();
    c.handle_keys(press(UP_KEY));
    c.handle_keys(press(DOWN_KEY));
    let r = c.handle_keys(release(DOWN_KEY));
    assert!(r.handled);
    assert_eq!(c.vertical, None);
}

#[test]
fn press_after_release_takes_effect() {
    let mut c = CameraControl::new();
    c.handle_keys(press(UP_KEY));
    c.handle_keys(release(UP_KEY));
    assert!(c.handle_keys(press(DOWN_KEY)).handled);
    assert_eq!(c.vertical, Some(MoveVertical::Down));
}

#[test]
fn release_without_intent_is_still_handled() {
    let mut c = CameraControl::new();
    assert!(c.handle_keys(release(LEFT_KEY)).handled);
    assert_eq!(c.horizontal, None);
}

#[test]
fn horizontal_keys_follow_the_same_table() {
    let mut c = CameraControl::new();
    assert!(c.handle_keys(press(LEFT_KEY)).handled);
    assert!(!c.handle_keys(press(RIGHT_KEY)).handled);
    assert_eq!(c.horizontal, Some(MoveHorizontal::Left));
    assert!(c.handle_keys(release(RIGHT_KEY)).handled);
    assert_eq!(c.horizontal, None);
    assert!(c.handle_keys(press(RIGHT_KEY)).handled);
    assert_eq!(c.horizontal, Some(MoveHorizontal::Right));
    assert_eq!(c.vertical, None);
}

#[test]
fn toggle_when_locked_releases_target_unhandled() {
    let mut c = CameraControl::new();
    c.handle_keys(press(UP_KEY));
    let r = c.handle_keys(press(TOGGLE_TARGET_KEY));
    assert!(!r.handled);
    assert_eq!(r.target, TargetChange::Release);
    assert!(!c.locked);
    assert_eq!(c.vertical, Some(MoveVertical::Up));
}

#[test]
fn toggle_when_free_acquires_target_handled() {
    let mut c = CameraControl::new();
    c.handle_keys(press(TOGGLE_TARGET_KEY));
    let r = c.handle_keys(press(TOGGLE_TARGET_KEY));
    assert!(r.handled);
    assert_eq!(r.target, TargetChange::Acquire);
    assert!(c.locked);
    assert_eq!(TARGET_DISTANCE, 10);
}

#[test]
fn toggle_release_does_nothing() {
    let mut c = CameraControl::new();
    let r = c.handle_keys(release(TOGGLE_TARGET_KEY));
    assert!(!r.handled);
    assert_eq!(r.target, TargetChange::Keep);
    assert_eq!(c, CameraControl::new());
}

#[test]
fn other_keys_are_ignored() {
    let mut c = CameraControl::new();
    for code in [0u32, 15, 18, 29, 33, 57] {
        let r = c.handle_keys(press(code));
        assert!(!r.handled);
        assert_eq!(r.target, TargetChange::Keep);
        let r = c.handle_keys(release(code));
        assert!(!r.handled);
    }
    assert_eq!(c, CameraControl::new());
}

#[test]
fn initial_step_aims_at_target_without_moving() {
    let c = CameraControl::new();
    let p = c.step_plan();
    assert!(p.aim_at_target);
    assert_eq!(p.advance, 0);
    assert_eq!(p.strafe, 0);
}

#[test]
fn free_look_strafe_right_plan() {
    let mut c = CameraControl::new();
    c.handle_keys(press(TOGGLE_TARGET_KEY));
    c.handle_keys(press(RIGHT_KEY));
    let p = c.step_plan();
    assert!(!p.aim_at_target);
    assert_eq!(p.advance, 0);
    assert_eq!(p.strafe, 1);
    assert_eq!(STEP_DISTANCE_HUNDREDTHS, 16);
}

#[test]
fn up_and_right_move_together() {
    let mut c = CameraControl::new();
    c.handle_keys(press(UP_KEY));
    c.handle_keys(press(RIGHT_KEY));
    let p = c.step_plan();
    assert!(p.aim_at_target);
    assert_eq!(p.advance, 1);
    assert_eq!(p.strafe, 1);
}

#[test]
fn down_and_left_move_backward_and_left() {
    let mut c = CameraControl::new();
    c.handle_keys(press(DOWN_KEY));
    c.handle_keys(press(LEFT_KEY));
    let p = c.step_plan();
    assert_eq!(p.advance, -1);
    assert_eq!(p.strafe, -1);
}

#[test]
fn rotation_only_in_free_look() {
    let mut c = CameraControl::new();
    assert!(!c.rotation_enabled());
    c.handle_keys(press(TOGGLE_TARGET_KEY));
    assert!(c.rotation_enabled());
}

#[test]
fn focus_follows_lock() {
    let mut c = CameraControl::new();
    assert_eq!(c.focus(), Focus::Target);
    c.handle_keys(press(TOGGLE_TARGET_KEY));
    assert_eq!(c.focus(), Focus::Ahead);
}
