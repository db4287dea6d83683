//! Keyboard state of an orbit camera, and the moves it asks for each frame.
use vstd::prelude::*;

verus! {

/// A key, as far as the camera is concerned.
#[derive(Clone, Copy, Debug, PartialEq, Eq, Structural)]
pub enum Key {
    Space,
    LShift,
    W,
    A,
    S,
    D,
    Up,
    Down,
    Left,
    Right,
    Other,
}

/// An input event handed to the controller.
#[derive(Clone, Copy, Debug, PartialEq, Eq, Structural)]
pub enum InputEvent {
    /// A key went down (`pressed`) or up.
    Keyboard { key: Key, pressed: bool },
    /// Anything else.
    Other,
}

/// One of the six directions a key can drive.
#[derive(Clone, Copy, Debug, PartialEq, Eq, Structural)]
pub enum Motion {
    Up,
    Down,
    Forward,
    Backward,
    Left,
    Right,
}

/// The direction a key drives: space and left shift move up and down, W/S or
/// the up/down arrows forward and backward, A/D or the left/right arrows left
/// and right.
pub open spec fn binding(key: Key) -> Option<Motion> {
    match key {
        Key::Space => Some(Motion::Up),
        Key::LShift => Some(Motion::Down),
        Key::W | Key::Up => Some(Motion::Forward),
        Key::S | Key::Down => Some(Motion::Backward),
        Key::A | Key::Left => Some(Motion::Left),
        Key::D | Key::Right => Some(Motion::Right),
        Key::Other => None,
    }
}

/// A change of the camera's eye, applied in the order given.
#[derive(Clone, Copy, Debug, PartialEq, Eq, Structural)]
pub enum CameraMove {
    /// Step towards the target by the camera speed.
    Advance,
    /// Step away from the target by the camera speed.
    Retreat,
    /// Turn about the target to the right, keeping the distance.
    OrbitRight,
    /// Turn about the target to the left, keeping the distance.
    OrbitLeft,
}

/// Which of the six directions are held down.
#[derive(Clone, Copy, Debug, PartialEq, Eq, Structural)]
pub struct CameraController {
    pub is_up_pressed: bool,
    pub is_down_pressed: bool,
    pub is_forward_pressed: bool,
    pub is_backward_pressed: bool,
    pub is_left_pressed: bool,
    pub is_right_pressed: bool,
}

impl CameraController {
    /// The state after the key for `m` went down (`pressed`) or up.
    pub open spec fn with(self, m: Motion, pressed: bool) -> CameraController {
        match m {
            Motion::Up => CameraController { is_up_pressed: pressed, ..self },
            Motion::Down => CameraController { is_down_pressed: pressed, ..self },
            Motion::Forward => CameraController { is_forward_pressed: pressed, ..self },
            Motion::Backward => CameraController { is_backward_pressed: pressed, ..self },
            Motion::Left => CameraController { is_left_pressed: pressed, ..self },
            Motion::Right => CameraController { is_right_pressed: pressed, ..self },
        }
    }

    /// Whether `event` drives the camera, and the state after it.
    pub open spec fn after(self, event: InputEvent) -> (bool, CameraController) {
        match event {
            InputEvent::Keyboard { key, pressed } => match binding(key) {
                Some(m) => (true, self.with(m, pressed)),
                None => (false, self),
            },
            InputEvent::Other => (false, self),
        }
    }

    /// The moves of one frame: an advance only while the target is farther
    /// than one step, then a retreat, a right and a left orbit, each while its
    /// key is held.  Up and down drive no move.
    pub open spec fn planned(self, beyond_step: bool) -> Seq<CameraMove> {
        (if self.is_forward_pressed && beyond_step {
            seq![CameraMove::Advance]
        } else {
            Seq::empty()
        }) + (if self.is_backward_pressed {
            seq![CameraMove::Retreat]
        } else {
            Seq::empty()
        }) + (if self.is_right_pressed {
            seq![CameraMove::OrbitRight]
        } else {
            Seq::empty()
        }) + (if self.is_left_pressed {
            seq![CameraMove::OrbitLeft]
        } else {
            Seq::empty()
        })
    }

    /// A controller with no key held.
    pub fn new() -> (r: CameraController)
        ensures
            !r.is_up_pressed,
            !r.is_down_pressed,
            !r.is_forward_pressed,
            !r.is_backward_pressed,
            !r.is_left_pressed,
            !r.is_right_pressed,
    {
        CameraController {
            is_up_pressed: false,
            is_down_pressed: false,
            is_forward_pressed: false,
            is_backward_pressed: false,
            is_left_pressed: false,
            is_right_pressed: false,
        }
    }

    /// Records a key event.  Returns whether the event was a key that drives
    /// the camera; any other event leaves the state as it was.
    pub fn process_events(&mut self, event: &InputEvent) -> (consumed: bool)
        ensures
            (consumed, *final(self)) == old(self).after(*event),
    {
        match event {
            InputEvent::Keyboard { key, pressed } => {
                let pressed = *pressed;
                match key {
                    Key::Space => {
                        self.is_up_pressed = pressed;
                        true
                    },
                    Key::LShift => {
                        self.is_down_pressed = pressed;
                        true
                    },
                    Key::W | Key::Up => {
                        self.is_forward_pressed = pressed;
                        true
                    },
                    Key::A | Key::Left => {
                        self.is_left_pressed = pressed;
                        true
                    },
                    Key::S | Key::Down => {
                        self.is_backward_pressed = pressed;
                        true
                    },
                    Key::D | Key::Right => {
                        self.is_right_pressed = pressed;
                        true
                    },
                    Key::Other => false,
                }
            },
            InputEvent::Other => false,
        }
    }

    /// The moves of one frame.  `beyond_step` tells whether the target is
    /// farther from the eye than one step of the camera speed; without it no
    /// advance is made, so the eye never reaches the target.
    pub fn moves(&self, beyond_step: bool) -> (r: Vec<CameraMove>)
        ensures
            r@ == self.planned(beyond_step),
            r@.contains(CameraMove::Advance) ==> beyond_step,
    {
        let mut r: Vec<CameraMove> = Vec::new();
        if self.is_forward_pressed && beyond_step {
            r.push(CameraMove::Advance);
        }
        if self.is_backward_pressed {
            r.push(CameraMove::Retreat);
        }
        if self.is_right_pressed {
            r.push(CameraMove::OrbitRight);
        }
        if self.is_left_pressed {
            r.push(CameraMove::OrbitLeft);
        }
        proof {
            assert(r@ =~= self.planned(beyond_step));
            if r@.contains(CameraMove::Advance) {
                let i = choose|i: int| 0 <= i < r@.len() && r@[i] == CameraMove::Advance;
                assert(beyond_step);
            }
        }
        r
    }
}

} // verus!
