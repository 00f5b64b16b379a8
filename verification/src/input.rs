//! What the keyboard and the mouse buttons did, tick by tick, and the
//! gestures that read it.

use crate::scalar::Scalar;
use vstd::prelude::*;

verus! {

/// The number of mouse buttons that are followed.
pub const MAX_MOUSE_BUTTONS: usize = 256;

/// The number of keys that are followed.
pub const MAX_KEY_BUTTONS: usize = 512;

/// Whether a key or button is down, and the tick in which it came to be so.
#[derive(Debug, Hash, PartialEq, Eq, Clone, Copy, Structural)]
pub enum InputState {
    Pressed(u64),
    Released(u64),
}

/// A button of the mouse.
#[derive(Debug, PartialEq, Eq, Clone, Copy, Structural)]
pub enum MouseButton {
    Left,
    Right,
    Middle,
    Other(u16),
}

/// Something the user does that is either happening or not.
pub enum Gesture {
    NoGesture,
    /// The key with this code is down.
    KeyHold(u16),
    /// The key with this code went down in this tick.
    KeyTrigger(u16),
    /// The button is down.
    ButtonHold(MouseButton),
    /// The button went down in this tick.
    ButtonTrigger(MouseButton),
    /// One of these is happening.
    AnyOf(Vec<Gesture>),
    /// Each of these is happening.
    AllOf(Vec<Gesture>),
    /// The window was asked to close in this tick.
    QuitTrigger,
}

/// A motion in two directions that the user steers.
pub enum Analog2d {
    NoAnalog2d,
    /// The motion of the mouse, times `sensitivity`.
    Mouse { sensitivity: Scalar },
    /// The turning of the wheel, times `sensitivity`.
    MouseWheel { sensitivity: Scalar },
    /// `step` along an axis while its positive gesture is happening, and
    /// `-step` while its negative one is.
    Gestures {
        x_positive: Gesture,
        x_negative: Gesture,
        y_positive: Gesture,
        y_negative: Gesture,
        step: Scalar,
    },
    /// The sum of these.
    Sum { analogs: Vec<Analog2d> },
}

/// What the window system reports, as far as keys and buttons go.
#[derive(Debug, PartialEq, Eq, Clone, Copy, Structural)]
pub enum InputEvent {
    /// A key went down; `None` where the system has no code for it.
    KeyPressed(Option<u16>),
    /// A key went up.
    KeyReleased(Option<u16>),
    ButtonPressed(MouseButton),
    ButtonReleased(MouseButton),
    /// The window was asked to close.
    CloseRequested,
    /// Anything else.
    Other,
}

/// The place of a button among the followed buttons.
pub open spec fn spec_mouse_button_index(button: MouseButton) -> int {
    match button {
        MouseButton::Left => 0,
        MouseButton::Middle => 1,
        MouseButton::Right => 2,
        MouseButton::Other(id) => id as int,
    }
}

/// The place of a button among the followed buttons.
pub fn mouse_button_index(button: &MouseButton) -> (r: usize)
    ensures
        r == spec_mouse_button_index(*button),
{
    match button {
        MouseButton::Left => 0,
        MouseButton::Middle => 1,
        MouseButton::Right => 2,
        MouseButton::Other(id) => *id as usize,
    }
}

/// The state of keys and buttons as a value.
pub struct InputView {
    pub mouse_buttons: Seq<InputState>,
    pub key_buttons: Seq<InputState>,
    pub quit_requested_index: u64,
    pub current_index: u64,
    pub mouse_grabbed: bool,
    pub new_mouse_grabbed: bool,
}

impl InputView {
    /// Whether the state is down.
    pub open spec fn held(state: InputState) -> bool {
        state is Pressed
    }

    /// Whether the state is down since the tick `tick`.
    pub open spec fn triggered(state: InputState, tick: u64) -> bool {
        state == InputState::Pressed(tick)
    }

    /// The state of the key with the code `code`; a key that is not followed
    /// counts as up.
    pub open spec fn key(self, code: u16) -> InputState {
        if code < self.key_buttons.len() {
            self.key_buttons[code as int]
        } else {
            InputState::Released(0)
        }
    }

    /// The state of the button `button`; a button that is not followed
    /// counts as up.
    pub open spec fn button(self, button: MouseButton) -> InputState {
        if spec_mouse_button_index(button) < self.mouse_buttons.len() {
            self.mouse_buttons[spec_mouse_button_index(button)]
        } else {
            InputState::Released(0)
        }
    }

    /// Whether the gesture is happening.
    pub open spec fn poll(self, gesture: Gesture) -> bool
        decreases gesture,
    {
        match gesture {
            Gesture::NoGesture => false,
            Gesture::QuitTrigger => self.quit_requested_index == self.current_index,
            Gesture::KeyHold(code) => Self::held(self.key(code)),
            Gesture::KeyTrigger(code) => Self::triggered(self.key(code), self.current_index),
            Gesture::ButtonHold(button) => Self::held(self.button(button)),
            Gesture::ButtonTrigger(button) => Self::triggered(
                self.button(button),
                self.current_index,
            ),
            Gesture::AnyOf(subgestures) => exists|i: int|
                0 <= i < subgestures.len() && self.poll(#[trigger] subgestures[i]),
            Gesture::AllOf(subgestures) => forall|i: int|
                0 <= i < subgestures.len() ==> self.poll(#[trigger] subgestures[i]),
        }
    }

    /// The state after the event.
    pub open spec fn after(self, event: InputEvent) -> InputView {
        match event {
            InputEvent::KeyPressed(Some(code)) => if code < self.key_buttons.len() {
                InputView {
                    key_buttons: self.key_buttons.update(
                        code as int,
                        InputState::Pressed(self.current_index),
                    ),
                    ..self
                }
            } else {
                self
            },
            InputEvent::KeyReleased(Some(code)) => if code < self.key_buttons.len() {
                InputView {
                    key_buttons: self.key_buttons.update(
                        code as int,
                        InputState::Released(self.current_index),
                    ),
                    ..self
                }
            } else {
                self
            },
            InputEvent::ButtonPressed(button) => if spec_mouse_button_index(button)
                < self.mouse_buttons.len() {
                InputView {
                    mouse_buttons: self.mouse_buttons.update(
                        spec_mouse_button_index(button),
                        InputState::Pressed(self.current_index),
                    ),
                    ..self
                }
            } else {
                self
            },
            InputEvent::ButtonReleased(button) => if spec_mouse_button_index(button)
                < self.mouse_buttons.len() {
                InputView {
                    mouse_buttons: self.mouse_buttons.update(
                        spec_mouse_button_index(button),
                        InputState::Released(self.current_index),
                    ),
                    ..self
                }
            } else {
                self
            },
            InputEvent::CloseRequested => InputView {
                quit_requested_index: self.current_index,
                ..self
            },
            _ => self,
        }
    }
}

/// The state of keys and buttons, and the number of the running tick.
pub struct Input {
    mouse_buttons: [InputState; 256],
    key_buttons: [InputState; 512],
    quit_requested_index: u64,
    current_index: u64,
    mouse_grabbed: bool,
    new_mouse_grabbed: bool,
}

impl View for Input {
    type V = InputView;

    closed spec fn view(&self) -> InputView {
        InputView {
            mouse_buttons: self.mouse_buttons@,
            key_buttons: self.key_buttons@,
            quit_requested_index: self.quit_requested_index,
            current_index: self.current_index,
            mouse_grabbed: self.mouse_grabbed,
            new_mouse_grabbed: self.new_mouse_grabbed,
        }
    }
}

impl Input {
    /// The state in which nothing is down, in tick 1.
    pub fn create() -> (r: Input)
        ensures
            r@.mouse_buttons == Seq::new(MAX_MOUSE_BUTTONS as nat, |i: int| InputState::Released(0)),
            r@.key_buttons == Seq::new(MAX_KEY_BUTTONS as nat, |i: int| InputState::Released(0)),
            r@.quit_requested_index == 0,
            r@.current_index == 1,
            !r@.mouse_grabbed,
            !r@.new_mouse_grabbed,
    {
        let r = Input {
            mouse_buttons: [InputState::Released(0);256],
            key_buttons: [InputState::Released(0);512],
            quit_requested_index: 0,
            current_index: 1,
            mouse_grabbed: false,
            new_mouse_grabbed: false,
        };
        assert(r@.mouse_buttons =~= Seq::new(
            MAX_MOUSE_BUTTONS as nat,
            |i: int| InputState::Released(0),
        ));
        assert(r@.key_buttons =~= Seq::new(
            MAX_KEY_BUTTONS as nat,
            |i: int| InputState::Released(0),
        ));
        r
    }

    fn key_state(&self, code: u16) -> (r: InputState)
        ensures
            r == self@.key(code),
    {
        if (code as usize) < MAX_KEY_BUTTONS {
            self.key_buttons[code as usize]
        } else {
            InputState::Released(0)
        }
    }

    fn button_state(&self, button: &MouseButton) -> (r: InputState)
        ensures
            r == self@.button(*button),
    {
        let place: usize = mouse_button_index(button);
        if place < MAX_MOUSE_BUTTONS {
            self.mouse_buttons[place]
        } else {
            InputState::Released(0)
        }
    }

    /// Whether the gesture is happening.
    pub fn poll_gesture(&self, gesture: &Gesture) -> (r: bool)
        ensures
            r == self@.poll(*gesture),
        decreases gesture,
    {
        match gesture {
            Gesture::QuitTrigger => self.quit_requested_index == self.current_index,
            Gesture::KeyHold(code) => match self.key_state(*code) {
                InputState::Pressed(_) => true,
                InputState::Released(_) => false,
            },
            Gesture::KeyTrigger(code) => match self.key_state(*code) {
                InputState::Pressed(index) => self.current_index == index,
                InputState::Released(_) => false,
            },
            Gesture::ButtonHold(button) => match self.button_state(button) {
                InputState::Pressed(_) => true,
                InputState::Released(_) => false,
            },
            Gesture::ButtonTrigger(button) => match self.button_state(button) {
                InputState::Pressed(index) => self.current_index == index,
                InputState::Released(_) => false,
            },
            Gesture::AnyOf(subgestures) => {
                let mut i: usize = 0;
                while i < subgestures.len()
                    invariant
                        i <= subgestures.len(),
                        *gesture is AnyOf,
                        gesture->AnyOf_0 == *subgestures,
                        forall|k: int| 0 <= k < i ==> !self@.poll(#[trigger] subgestures[k]),
                    decreases subgestures.len() - i,
                {
                    assert(decreases_to!(*gesture => gesture->AnyOf_0));
                    assert(decreases_to!(*subgestures => subgestures[i as int]));
                    assert(decreases_to!(*gesture => subgestures[i as int]));
                    if self.poll_gesture(&subgestures[i]) {
                        assert(self@.poll(subgestures[i as int]));
                        return true;
                    }
                    i += 1;
                }
                false
            },
            Gesture::AllOf(subgestures) => {
                let mut i: usize = 0;
                while i < subgestures.len()
                    invariant
                        i <= subgestures.len(),
                        *gesture is AllOf,
                        gesture->AllOf_0 == *subgestures,
                        forall|k: int| 0 <= k < i ==> self@.poll(#[trigger] subgestures[k]),
                    decreases subgestures.len() - i,
                {
                    assert(decreases_to!(*gesture => gesture->AllOf_0));
                    assert(decreases_to!(*subgestures => subgestures[i as int]));
                    assert(decreases_to!(*gesture => subgestures[i as int]));
                    if !self.poll_gesture(&subgestures[i]) {
                        assert(!self@.poll(subgestures[i as int]));
                        return false;
                    }
                    i += 1;
                }
                true
            },
            Gesture::NoGesture => false,
        }
    }

    /// What an axis steered by two gestures reads: `step` while `positive`
    /// is happening, else `-step` while `negative` is, else zero.
    pub fn poll_axis(&self, positive: &Gesture, negative: &Gesture, step: Scalar) -> (r: Scalar)
        ensures
            r == (if self@.poll(*positive) {
                step
            } else if self@.poll(*negative) {
                step.spec_neg()
            } else {
                Scalar { bits: 0 }
            }),
    {
        if self.poll_gesture(positive) {
            step
        } else if self.poll_gesture(negative) {
            step.neg()
        } else {
            Scalar::zero()
        }
    }

    /// Asks for the cursor to be grabbed or let go. The wish is granted by
    /// [`Input::sync_cursor_grab`].
    pub fn set_cursor_grabbed(&mut self, grabbed: bool)
        ensures
            final(self)@ == (InputView { new_mouse_grabbed: grabbed, ..old(self)@ }),
    {
        self.new_mouse_grabbed = grabbed
    }

    /// Whether the cursor is grabbed.
    pub fn is_mouse_grabbed(&self) -> (r: bool)
        ensures
            r == self@.mouse_grabbed,
    {
        self.mouse_grabbed
    }

    /// Grants the last wish for the cursor. Where that changes whether the
    /// cursor is grabbed, the result is what the window has to be told.
    pub fn sync_cursor_grab(&mut self) -> (r: Option<bool>)
        ensures
            final(self)@ == (InputView {
                mouse_grabbed: old(self)@.new_mouse_grabbed,
                ..old(self)@
            }),
            r == (if old(self)@.new_mouse_grabbed != old(self)@.mouse_grabbed {
                Some(old(self)@.new_mouse_grabbed)
            } else {
                None
            }),
    {
        if self.new_mouse_grabbed != self.mouse_grabbed {
            self.mouse_grabbed = self.new_mouse_grabbed;
            Some(self.mouse_grabbed)
        } else {
            None
        }
    }

    /// Takes note of an event: a key or button that went down or up is
    /// marked so with the number of the running tick, and so is a request
    /// to close. A key or button that is not followed is passed over.
    pub fn update(&mut self, event: &InputEvent)
        ensures
            final(self)@ == old(self)@.after(*event),
    {
        match event {
            InputEvent::KeyPressed(Some(key)) => {
                if (*key as usize) < MAX_KEY_BUTTONS {
                    self.key_buttons[*key as usize] = InputState::Pressed(self.current_index);
                }
            },
            InputEvent::KeyReleased(Some(key)) => {
                if (*key as usize) < MAX_KEY_BUTTONS {
                    self.key_buttons[*key as usize] = InputState::Released(self.current_index);
                }
            },
            InputEvent::ButtonPressed(button) => {
                let place: usize = mouse_button_index(button);
                if place < MAX_MOUSE_BUTTONS {
                    self.mouse_buttons[place] = InputState::Pressed(self.current_index);
                }
            },
            InputEvent::ButtonReleased(button) => {
                let place: usize = mouse_button_index(button);
                if place < MAX_MOUSE_BUTTONS {
                    self.mouse_buttons[place] = InputState::Released(self.current_index);
                }
            },
            InputEvent::CloseRequested => {
                self.quit_requested_index = self.current_index;
            },
            _ => {},
        }
    }

    /// Goes on to the next tick. The count of ticks stops at `u64::MAX`.
    pub fn increment_index(&mut self)
        ensures
            final(self)@ == (InputView {
                current_index: if old(self)@.current_index == u64::MAX {
                    u64::MAX
                } else {
                    (old(self)@.current_index + 1) as u64
                },
                ..old(self)@
            }),
    {
        if self.current_index < u64::MAX {
            self.current_index += 1;
        }
    }

    /// Goes on to the next tick, as [`Input::increment_index`] does.
    pub fn tick_reset(&mut self)
        ensures
            final(self)@ == (InputView {
                current_index: if old(self)@.current_index == u64::MAX {
                    u64::MAX
                } else {
                    (old(self)@.current_index + 1) as u64
                },
                ..old(self)@
            }),
    {
        self.increment_index();
    }
}

/// What was triggered in one tick is no longer triggered in the next: a
/// trigger fires once.
pub proof fn lemma_trigger_fires_once(input: InputView, code: u16)
    requires
        input.current_index < u64::MAX,
        input.poll(Gesture::KeyTrigger(code)),
    ensures
        !(InputView { current_index: (input.current_index + 1) as u64, ..input }).poll(
            Gesture::KeyTrigger(code),
        ),
        (InputView { current_index: (input.current_index + 1) as u64, ..input }).poll(
            Gesture::KeyHold(code),
        ),
{
}

} // verus!
