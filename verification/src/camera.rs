//! Camera input decisions.
//!
//! The controller tracks which camera keys are held and decides, once per
//! frame, what the camera does: the net move direction as integer components,
//! whether the camera moved at all (which is what forces a camera uniform
//! re-upload), and the zoom direction. Applying the decision to the
//! floating-point camera state is the job of the unverified layer around
//! this core; the decisions themselves are exact.

use vstd::prelude::*;

verus! {

/// Bit pattern of the default per-frame camera move speed (an IEEE-754
/// single).
pub const MOVE_SPEED_LANE: u32 = 0x3DCC_CCCD;

/// Bit pattern of the default per-frame camera zoom speed (an IEEE-754
/// single).
pub const ZOOM_SPEED_LANE: u32 = 0x3D4C_CCCD;

/// A key the camera controller listens to.
#[derive(Clone, Copy, Debug, PartialEq, Eq, Structural)]
pub enum CameraKey {
    Forward,
    Backward,
    Left,
    Right,
    ZoomIn,
    ZoomOut,
}

/// The zoom the camera performs this frame.
#[derive(Clone, Copy, Debug, PartialEq, Eq, Structural)]
pub enum ZoomAction {
    /// Shrink the view scale by the zoom speed.
    Closer,
    /// Grow the view scale by the zoom speed.
    Away,
    /// Leave the view scale alone.
    Hold,
}

/// The camera decision for one frame.
#[derive(Clone, Copy, Debug, PartialEq, Eq, Structural)]
pub struct CameraStep {
    /// Net horizontal move direction: `-1`, `0` or `1`.
    pub move_x: i32,
    /// Net vertical move direction: `-1`, `0` or `1`.
    pub move_y: i32,
    /// Whether the camera origin moves this frame; only then is the camera
    /// uniform re-uploaded.
    pub moved: bool,
    /// Zoom performed this frame. Zooming alone does not count as `moved`.
    pub zoom: ZoomAction,
}

/// Tracks which camera keys are held, plus the speed lanes handed back to
/// the floating-point camera when a decision is applied.
#[derive(Clone, Copy, Debug, PartialEq, Eq, Structural)]
pub struct CameraController {
    pub move_speed: u32,
    pub zoom_speed: u32,
    pub is_forward_pressed: bool,
    pub is_backward_pressed: bool,
    pub is_left_pressed: bool,
    pub is_right_pressed: bool,
    pub is_zoom_pressed: bool,
    pub is_unzoom_pressed: bool,
}

/// The controller as it starts: no key held.
pub open spec fn controller_initial(move_speed: u32, zoom_speed: u32) -> CameraController {
    CameraController {
        move_speed,
        zoom_speed,
        is_forward_pressed: false,
        is_backward_pressed: false,
        is_left_pressed: false,
        is_right_pressed: false,
        is_zoom_pressed: false,
        is_unzoom_pressed: false,
    }
}

/// `c` with the flag of `key` set to `pressed` and everything else kept.
pub open spec fn with_key(c: CameraController, key: CameraKey, pressed: bool) -> CameraController {
    match key {
        CameraKey::Forward => CameraController { is_forward_pressed: pressed, ..c },
        CameraKey::Backward => CameraController { is_backward_pressed: pressed, ..c },
        CameraKey::Left => CameraController { is_left_pressed: pressed, ..c },
        CameraKey::Right => CameraController { is_right_pressed: pressed, ..c },
        CameraKey::ZoomIn => CameraController { is_zoom_pressed: pressed, ..c },
        CameraKey::ZoomOut => CameraController { is_unzoom_pressed: pressed, ..c },
    }
}

/// The controller after an input event: unchanged when the event carries no
/// camera key.
pub open spec fn after_event(c: CameraController, key: Option<CameraKey>, pressed: bool) -> CameraController {
    match key {
        Option::Some(k) => with_key(c, k, pressed),
        Option::None => c,
    }
}

/// Net horizontal direction of the held movement keys.
pub open spec fn net_x(c: CameraController) -> int {
    (if c.is_right_pressed { 1int } else { 0int }) - (if c.is_left_pressed { 1int } else { 0int })
}

/// Net vertical direction of the held movement keys.
pub open spec fn net_y(c: CameraController) -> int {
    (if c.is_forward_pressed { 1int } else { 0int }) - (if c.is_backward_pressed { 1int } else { 0int })
}

/// The decision the controller takes for one frame: move along the net
/// direction when any is held (opposed keys cancel); otherwise zoom in when
/// the zoom key is held alone, out when the unzoom key is held.
pub open spec fn camera_step_of(c: CameraController) -> CameraStep {
    let moved = net_x(c) != 0 || net_y(c) != 0;
    CameraStep {
        move_x: net_x(c) as i32,
        move_y: net_y(c) as i32,
        moved,
        zoom: if moved {
            ZoomAction::Hold
        } else if c.is_zoom_pressed && !c.is_unzoom_pressed {
            ZoomAction::Closer
        } else if c.is_unzoom_pressed {
            ZoomAction::Away
        } else {
            ZoomAction::Hold
        },
    }
}

impl CameraController {
    /// Creates a controller with the given speed lanes and no key held.
    pub fn new(move_speed: u32, zoom_speed: u32) -> (c: CameraController)
        ensures
            c == controller_initial(move_speed, zoom_speed),
    {
        CameraController {
            move_speed,
            zoom_speed,
            is_forward_pressed: false,
            is_backward_pressed: false,
            is_left_pressed: false,
            is_right_pressed: false,
            is_zoom_pressed: false,
            is_unzoom_pressed: false,
        }
    }

    /// Records a key transition. Returns whether the event addressed the
    /// camera; events without a camera key leave the controller unchanged.
    pub fn process_events(&mut self, key: Option<CameraKey>, pressed: bool) -> (handled: bool)
        ensures
            *final(self) == after_event(*old(self), key, pressed),
            handled == (key is Some),
    {
        match key {
            Option::Some(CameraKey::Forward) => {
                self.is_forward_pressed = pressed;
                true
            },
            Option::Some(CameraKey::Backward) => {
                self.is_backward_pressed = pressed;
                true
            },
            Option::Some(CameraKey::Left) => {
                self.is_left_pressed = pressed;
                true
            },
            Option::Some(CameraKey::Right) => {
                self.is_right_pressed = pressed;
                true
            },
            Option::Some(CameraKey::ZoomIn) => {
                self.is_zoom_pressed = pressed;
                true
            },
            Option::Some(CameraKey::ZoomOut) => {
                self.is_unzoom_pressed = pressed;
                true
            },
            Option::None => false,
        }
    }

    /// Decides this frame's camera action from the held keys.
    pub fn update_camera(&self) -> (step: CameraStep)
        ensures
            step == camera_step_of(*self),
    {
        let move_x: i32 = (if self.is_right_pressed { 1i32 } else { 0i32 })
            - (if self.is_left_pressed { 1i32 } else { 0i32 });
        let move_y: i32 = (if self.is_forward_pressed { 1i32 } else { 0i32 })
            - (if self.is_backward_pressed { 1i32 } else { 0i32 });
        let moved = move_x != 0 || move_y != 0;
        let zoom = if moved {
            ZoomAction::Hold
        } else if self.is_zoom_pressed && !self.is_unzoom_pressed {
            ZoomAction::Closer
        } else if self.is_unzoom_pressed {
            ZoomAction::Away
        } else {
            ZoomAction::Hold
        };
        CameraStep { move_x, move_y, moved, zoom }
    }
}

} // verus!
