//! The keys and buttons that steer the playground.

use crate::input::Analog2d;
use crate::input::Gesture;
use crate::input::MouseButton;
use crate::scalar::Scalar;
use vstd::prelude::*;

verus! {

/// The codes of the keys that are bound, as the window system counts them.
pub const KEY_C: u16 = 12;

pub const KEY_D: u16 = 13;

pub const KEY_F: u16 = 15;

pub const KEY_Q: u16 = 26;

pub const KEY_R: u16 = 27;

pub const KEY_S: u16 = 28;

pub const KEY_T: u16 = 29;

pub const KEY_Z: u16 = 35;

pub const KEY_ESCAPE: u16 = 36;

pub const KEY_LEFT: u16 = 70;

pub const KEY_UP: u16 = 71;

pub const KEY_RIGHT: u16 = 72;

pub const KEY_DOWN: u16 = 73;

pub const KEY_SPACE: u16 = 76;

/// The bits of the step of a held key and of the sensitivity of the mouse:
/// fifteen thousandths.
pub const STEP_BITS: u32 = 0x3c75_c28f;

/// The bits of the sensitivity of the wheel: thirty thousandths.
pub const WHEEL_BITS: u32 = 0x3cf5_c28f;

/// What each action of the playground is bound to.
pub struct Binding {
    pub exit: Gesture,
    pub movement: Analog2d,
    pub look: Analog2d,
    pub jump: Gesture,
    pub fall: Gesture,
    pub fullscreen: Gesture,
    pub scroll: Analog2d,
    pub toggle_mouse: Gesture,
    pub toggle_torch_light: Gesture,
    pub swap_color: Gesture,
}

/// Whether the gesture is: one of the keys `first` and `second` is down.
pub open spec fn either_key(gesture: Gesture, first: u16, second: u16) -> bool {
    &&& gesture is AnyOf
    &&& gesture->AnyOf_0@ == seq![Gesture::KeyHold(first), Gesture::KeyHold(second)]
}

impl Binding {
    /// Whether these are the bindings that the playground starts with:
    /// Escape leaves, the arrows or Z, Q, S and D move, the mouse looks while
    /// its right button is down, the wheel zooms, Space rises and C falls,
    /// F flips fullscreen, T the torch and R the colour.
    pub open spec fn is_initial(self) -> bool {
        &&& self.exit == Gesture::KeyTrigger(KEY_ESCAPE)
        &&& self.movement is Gestures
        &&& either_key(self.movement->x_positive, KEY_D, KEY_RIGHT)
        &&& either_key(self.movement->x_negative, KEY_Q, KEY_LEFT)
        &&& either_key(self.movement->y_positive, KEY_Z, KEY_UP)
        &&& either_key(self.movement->y_negative, KEY_S, KEY_DOWN)
        &&& self.movement->step == (Scalar { bits: STEP_BITS })
        &&& self.look == (Analog2d::Mouse { sensitivity: Scalar { bits: STEP_BITS } })
        &&& self.jump == Gesture::KeyHold(KEY_SPACE)
        &&& self.fall == Gesture::KeyHold(KEY_C)
        &&& self.fullscreen == Gesture::KeyTrigger(KEY_F)
        &&& self.scroll == (Analog2d::MouseWheel { sensitivity: Scalar { bits: WHEEL_BITS } })
        &&& self.toggle_mouse == Gesture::ButtonHold(MouseButton::Right)
        &&& self.toggle_torch_light == Gesture::KeyTrigger(KEY_T)
        &&& self.swap_color == Gesture::KeyTrigger(KEY_R)
    }

    /// The bindings that the playground starts with.
    pub fn create() -> (r: Binding)
        ensures
            r.is_initial(),
    {
        let step = Scalar::from_bits(STEP_BITS);
        Binding {
            exit: Gesture::KeyTrigger(KEY_ESCAPE),
            movement: Analog2d::Gestures {
                x_positive: Gesture::AnyOf(
                    vec![Gesture::KeyHold(KEY_D), Gesture::KeyHold(KEY_RIGHT)],
                ),
                x_negative: Gesture::AnyOf(
                    vec![Gesture::KeyHold(KEY_Q), Gesture::KeyHold(KEY_LEFT)],
                ),
                y_positive: Gesture::AnyOf(vec![Gesture::KeyHold(KEY_Z), Gesture::KeyHold(KEY_UP)]),
                y_negative: Gesture::AnyOf(
                    vec![Gesture::KeyHold(KEY_S), Gesture::KeyHold(KEY_DOWN)],
                ),
                step,
            },
            look: Analog2d::Mouse { sensitivity: step },
            jump: Gesture::KeyHold(KEY_SPACE),
            fall: Gesture::KeyHold(KEY_C),
            fullscreen: Gesture::KeyTrigger(KEY_F),
            scroll: Analog2d::MouseWheel { sensitivity: Scalar::from_bits(WHEEL_BITS) },
            toggle_mouse: Gesture::ButtonHold(MouseButton::Right),
            toggle_torch_light: Gesture::KeyTrigger(KEY_T),
            swap_color: Gesture::KeyTrigger(KEY_R),
        }
    }
}

} // verus!
