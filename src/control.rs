use vstd::prelude::*;

verus! {

/// Scancode of the key that locks onto, or releases, the target point.
pub const TOGGLE_TARGET_KEY: u32 = 16;

/// Scancode of the key that moves forward along the facing direction.
pub const UP_KEY: u32 = 17;

/// Scancode of the key that strafes left.
pub const LEFT_KEY: u32 = 30;

/// Scancode of the key that moves backward along the facing direction.
pub const DOWN_KEY: u32 = 31;

/// Scancode of the key that strafes right.
pub const RIGHT_KEY: u32 = 32;

/// Distance, along world +Z from the current position, at which a newly
/// acquired target is placed.
pub const TARGET_DISTANCE: u32 = 10;

/// Distance moved per step along an active axis, in hundredths of a unit.
pub const STEP_DISTANCE_HUNDREDTHS: u32 = 16;

/// Whether a key went down or came back up.
#[derive(Clone, Copy, Debug, PartialEq, Eq, Structural)]
pub enum KeyState {
    Pressed,
    Released,
}

/// One raw key event: the physical key and its new state.
#[derive(Clone, Copy, Debug, PartialEq, Eq, Structural)]
pub struct KeyInput {
    pub scancode: u32,
    pub state: KeyState,
}

/// Movement along the facing direction.
#[derive(Clone, Copy, Debug, PartialEq, Eq, Structural)]
pub enum MoveVertical {
    Up,
    Down,
}

/// Movement along the strafe axis (facing crossed with up).
#[derive(Clone, Copy, Debug, PartialEq, Eq, Structural)]
pub enum MoveHorizontal {
    Left,
    Right,
}

/// What a key event does to the camera's target point.
#[derive(Clone, Copy, Debug, PartialEq, Eq, Structural)]
pub enum TargetChange {
    /// The target stays as it is.
    Keep,
    /// A target is placed `TARGET_DISTANCE` units along world +Z from the
    /// current position.
    Acquire,
    /// The target is dropped; the camera switches to free look.
    Release,
}

/// The result of handling one key event.
#[derive(Clone, Copy, Debug, PartialEq, Eq, Structural)]
pub struct KeyOutcome {
    /// Whether the event was consumed by the camera.
    pub handled: bool,
    /// What the holder of the target point must do with it.
    pub target: TargetChange,
}

/// Where the view transform looks.
#[derive(Clone, Copy, Debug, PartialEq, Eq, Structural)]
pub enum Focus {
    /// From the position toward the target point.
    Target,
    /// From the position toward the position plus the facing direction.
    Ahead,
}

/// What one step of the camera does, in order: first re-aim at the target
/// if asked, then move along the facing direction and the strafe axis, both
/// taken from the direction as it stands after re-aiming.
#[derive(Clone, Copy, Debug, PartialEq, Eq, Structural)]
pub struct StepPlan {
    /// Set the facing direction to the normalised vector from the position to
    /// the target.
    pub aim_at_target: bool,
    /// 1: add direction times the step distance; -1: subtract it; 0: nothing.
    pub advance: i8,
    /// 1: add (direction x up) times the step distance; -1: subtract it;
    /// 0: nothing.
    pub strafe: i8,
}

/// The discrete state of the camera: whether it is locked onto a target, and
/// the two movement intents.
#[derive(Clone, Copy, Debug, PartialEq, Eq, Structural)]
pub struct CameraControl {
    pub locked: bool,
    pub vertical: Option<MoveVertical>,
    pub horizontal: Option<MoveHorizontal>,
}

/// The state after `input`, following the press/release table key by key.
pub open spec fn next_control(c: CameraControl, input: KeyInput) -> CameraControl {
    let pressed = input.state == KeyState::Pressed;
    if input.scancode == TOGGLE_TARGET_KEY {
        if pressed {
            CameraControl { locked: !c.locked, ..c }
        } else {
            c
        }
    } else if input.scancode == UP_KEY || input.scancode == DOWN_KEY {
        let d = if input.scancode == UP_KEY { MoveVertical::Up } else { MoveVertical::Down };
        if !pressed {
            CameraControl { vertical: None, ..c }
        } else if c.vertical is None {
            CameraControl { vertical: Some(d), ..c }
        } else {
            c
        }
    } else if input.scancode == LEFT_KEY || input.scancode == RIGHT_KEY {
        let d = if input.scancode == LEFT_KEY { MoveHorizontal::Left } else { MoveHorizontal::Right };
        if !pressed {
            CameraControl { horizontal: None, ..c }
        } else if c.horizontal is None {
            CameraControl { horizontal: Some(d), ..c }
        } else {
            c
        }
    } else {
        c
    }
}

/// Whether `input` is reported as handled in state `c`.
pub open spec fn key_handled(c: CameraControl, input: KeyInput) -> bool {
    let pressed = input.state == KeyState::Pressed;
    if input.scancode == TOGGLE_TARGET_KEY {
        pressed && !c.locked
    } else if input.scancode == UP_KEY || input.scancode == DOWN_KEY {
        !pressed || c.vertical is None
    } else if input.scancode == LEFT_KEY || input.scancode == RIGHT_KEY {
        !pressed || c.horizontal is None
    } else {
        false
    }
}

/// What `input` does to the target point in state `c`.
pub open spec fn target_change(c: CameraControl, input: KeyInput) -> TargetChange {
    if input.scancode == TOGGLE_TARGET_KEY && input.state == KeyState::Pressed {
        if c.locked {
            TargetChange::Release
        } else {
            TargetChange::Acquire
        }
    } else {
        TargetChange::Keep
    }
}

/// The sign of movement along the facing direction for an intent.
pub open spec fn advance_sign(v: Option<MoveVertical>) -> int {
    match v {
        Some(MoveVertical::Up) => 1,
        Some(MoveVertical::Down) => -1,
        None => 0,
    }
}

/// The sign of movement along the strafe axis for an intent.
pub open spec fn strafe_sign(h: Option<MoveHorizontal>) -> int {
    match h {
        Some(MoveHorizontal::Right) => 1,
        Some(MoveHorizontal::Left) => -1,
        None => 0,
    }
}

impl CameraControl {
    /// A freshly built camera: locked onto its target, with no movement intent.
    pub fn new() -> (r: CameraControl)
        ensures
            r.locked,
            r.vertical is None,
            r.horizontal is None,
    {
        CameraControl { locked: true, vertical: None, horizontal: None }
    }

    /// Applies one key event and reports whether it was handled and what
    /// becomes of the target point.
    pub fn handle_keys(&mut self, input: KeyInput) -> (r: KeyOutcome)
        ensures
            *final(self) == next_control(*old(self), input),
            r.handled == key_handled(*old(self), input),
            r.target == target_change(*old(self), input),
    {
        let pressed = match input.state {
            KeyState::Pressed => true,
            KeyState::Released => false,
        };
        let mut handled = false;
        let mut target = TargetChange::Keep;
        if input.scancode == TOGGLE_TARGET_KEY {
            if pressed {
                if !self.locked {
                    self.locked = true;
                    target = TargetChange::Acquire;
                    handled = true;
                } else {
                    self.locked = false;
                    target = TargetChange::Release;
                }
            }
        } else if input.scancode == UP_KEY || input.scancode == DOWN_KEY {
            if pressed {
                if self.vertical.is_none() {
                    self.vertical = Some(
                        if input.scancode == UP_KEY {
                            MoveVertical::Up
                        } else {
                            MoveVertical::Down
                        },
                    );
                    handled = true;
                }
            } else {
                self.vertical = None;
                handled = true;
            }
        } else if input.scancode == LEFT_KEY || input.scancode == RIGHT_KEY {
            if pressed {
                if self.horizontal.is_none() {
                    self.horizontal = Some(
                        if input.scancode == LEFT_KEY {
                            MoveHorizontal::Left
                        } else {
                            MoveHorizontal::Right
                        },
                    );
                    handled = true;
                }
            } else {
                self.horizontal = None;
                handled = true;
            }
        }
        KeyOutcome { handled, target }
    }

    /// Whether pointer motion may turn the facing direction: only in free look.
    pub fn rotation_enabled(&self) -> (r: bool)
        ensures
            r == !self.locked,
    {
        !self.locked
    }

    /// Which point the view transform looks at.
    pub fn focus(&self) -> (r: Focus)
        ensures
            r == (if self.locked { Focus::Target } else { Focus::Ahead }),
    {
        if self.locked {
            Focus::Target
        } else {
            Focus::Ahead
        }
    }

    /// What one step of the camera does in the current state.
    pub fn step_plan(&self) -> (r: StepPlan)
        ensures
            r.aim_at_target == self.locked,
            r.advance as int == advance_sign(self.vertical),
            r.strafe as int == strafe_sign(self.horizontal),
    {
        let advance: i8 = match self.vertical {
            Some(MoveVertical::Up) => 1,
            Some(MoveVertical::Down) => -1,
            None => 0,
        };
        let strafe: i8 = match self.horizontal {
            Some(MoveHorizontal::Right) => 1,
            Some(MoveHorizontal::Left) => -1,
            None => 0,
        };
        StepPlan { aim_at_target: self.locked, advance, strafe }
    }
}

} // verus!
