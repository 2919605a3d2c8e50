//! The camera controller's latch: eight switches, six driven by keys and two
//! by mouse buttons, each following the last press or release of its input.

use crate::event::{ElementState, InputEvent, MouseButton, VirtualKeyCode};
use vstd::prelude::*;

verus! {

/// The name of one switch of the controller.
#[derive(Clone, Copy, Debug, PartialEq, Eq, Hash, Structural)]
pub enum Control {
    Up,
    Down,
    Forward,
    Backward,
    Left,
    Right,
    MouseLeft,
    MouseRight,
}

/// The switch that a key drives, if it drives one.
///
/// Space raises and the left shift key lowers; W, A, S, D and the arrow keys
/// give the four directions on the ground. No other key is bound.
pub open spec fn key_control(key: VirtualKeyCode) -> Option<Control> {
    match key {
        VirtualKeyCode::Space => Some(Control::Up),
        VirtualKeyCode::LShift => Some(Control::Down),
        VirtualKeyCode::W | VirtualKeyCode::Up => Some(Control::Forward),
        VirtualKeyCode::A | VirtualKeyCode::Left => Some(Control::Left),
        VirtualKeyCode::S | VirtualKeyCode::Down => Some(Control::Backward),
        VirtualKeyCode::D | VirtualKeyCode::Right => Some(Control::Right),
        _ => None,
    }
}

/// The switch that a mouse button drives: the left and the right button have
/// one each, the others none.
pub open spec fn button_control(button: MouseButton) -> Option<Control> {
    match button {
        MouseButton::Left => Some(Control::MouseLeft),
        MouseButton::Right => Some(Control::MouseRight),
        _ => None,
    }
}

/// What an event asks of the latch: the switch it drives and the position
/// that switch takes, or `None` where the event concerns no switch.
pub open spec fn latched(event: InputEvent) -> Option<(Control, bool)> {
    match event {
        InputEvent::MouseInput { state, button } => match button_control(button) {
            Some(control) => Some((control, state.pressed())),
            None => None,
        },
        InputEvent::KeyboardInput { state, virtual_keycode: Some(key) } => match key_control(key) {
            Some(control) => Some((control, state.pressed())),
            None => None,
        },
        _ => None,
    }
}

/// The positions of the eight switches. A switch is `true` while its key or
/// button is held down.
#[derive(Clone, Copy, Debug, PartialEq, Eq, Structural)]
pub struct CameraController {
    pub is_up_pressed: bool,
    pub is_down_pressed: bool,
    pub is_forward_pressed: bool,
    pub is_backward_pressed: bool,
    pub is_left_pressed: bool,
    pub is_right_pressed: bool,
    pub mouse_left_pressed: bool,
    pub mouse_right_pressed: bool,
}

impl CameraController {
    /// The controller with every switch released.
    pub open spec fn idle() -> Self {
        CameraController {
            is_up_pressed: false,
            is_down_pressed: false,
            is_forward_pressed: false,
            is_backward_pressed: false,
            is_left_pressed: false,
            is_right_pressed: false,
            mouse_left_pressed: false,
            mouse_right_pressed: false,
        }
    }

    /// The position of one switch.
    pub open spec fn switch(self, control: Control) -> bool {
        match control {
            Control::Up => self.is_up_pressed,
            Control::Down => self.is_down_pressed,
            Control::Forward => self.is_forward_pressed,
            Control::Backward => self.is_backward_pressed,
            Control::Left => self.is_left_pressed,
            Control::Right => self.is_right_pressed,
            Control::MouseLeft => self.mouse_left_pressed,
            Control::MouseRight => self.mouse_right_pressed,
        }
    }

    /// This controller with one switch put in the given position.
    pub open spec fn with(self, control: Control, pressed: bool) -> Self {
        match control {
            Control::Up => CameraController { is_up_pressed: pressed, ..self },
            Control::Down => CameraController { is_down_pressed: pressed, ..self },
            Control::Forward => CameraController { is_forward_pressed: pressed, ..self },
            Control::Backward => CameraController { is_backward_pressed: pressed, ..self },
            Control::Left => CameraController { is_left_pressed: pressed, ..self },
            Control::Right => CameraController { is_right_pressed: pressed, ..self },
            Control::MouseLeft => CameraController { mouse_left_pressed: pressed, ..self },
            Control::MouseRight => CameraController { mouse_right_pressed: pressed, ..self },
        }
    }

    /// The controller as one event leaves it.
    pub open spec fn after(self, event: InputEvent) -> Self {
        match latched(event) {
            Some((control, pressed)) => self.with(control, pressed),
            None => self,
        }
    }

    /// A controller with nothing held down.
    pub fn new() -> (controller: Self)
        ensures
            controller == Self::idle(),
    {
        CameraController {
            is_up_pressed: false,
            is_down_pressed: false,
            is_forward_pressed: false,
            is_backward_pressed: false,
            is_left_pressed: false,
            is_right_pressed: false,
            mouse_left_pressed: false,
            mouse_right_pressed: false,
        }
    }

    /// Takes one event. An event that drives a switch moves that switch and
    /// is consumed; any other event is left for others and changes nothing.
    pub fn process_events(&mut self, event: &InputEvent) -> (consumed: bool)
        ensures
            consumed == latched(*event).is_some(),
            *final(self) == old(self).after(*event),
    {
        match event {
            InputEvent::MouseInput { button: MouseButton::Left, state } => {
                self.mouse_left_pressed = state.is_pressed();
                true
            },
            InputEvent::MouseInput { button: MouseButton::Right, state } => {
                self.mouse_right_pressed = state.is_pressed();
                true
            },
            InputEvent::KeyboardInput { state, virtual_keycode: Some(keycode) } => {
                let is_pressed = state.is_pressed();
                match keycode {
                    VirtualKeyCode::Space => {
                        self.is_up_pressed = is_pressed;
                        true
                    },
                    VirtualKeyCode::LShift => {
                        self.is_down_pressed = is_pressed;
                        true
                    },
                    VirtualKeyCode::W | VirtualKeyCode::Up => {
                        self.is_forward_pressed = is_pressed;
                        true
                    },
                    VirtualKeyCode::A | VirtualKeyCode::Left => {
                        self.is_left_pressed = is_pressed;
                        true
                    },
                    VirtualKeyCode::S | VirtualKeyCode::Down => {
                        self.is_backward_pressed = is_pressed;
                        true
                    },
                    VirtualKeyCode::D | VirtualKeyCode::Right => {
                        self.is_right_pressed = is_pressed;
                        true
                    },
                    _ => false,
                }
            },
            _ => false,
        }
    }
}

/// Putting a switch in a position gives that switch that position and leaves
/// the other seven where they were.
pub proof fn lemma_with_moves_one_switch(
    controller: CameraController,
    control: Control,
    pressed: bool,
    other: Control,
)
    ensures
        controller.with(control, pressed).switch(control) == pressed,
        other != control ==> controller.with(control, pressed).switch(other) == controller.switch(
            other,
        ),
{
}

/// A left or right mouse button event is always consumed, and afterwards the
/// button's switch is down exactly if the button was pressed. In particular a
/// press of the left button sets `mouse_left_pressed`, and a release that
/// follows clears it again.
pub proof fn lemma_mouse_button_follows_state(controller: CameraController, state: ElementState)
    ensures
        latched(InputEvent::MouseInput { state, button: MouseButton::Left }).is_some(),
        latched(InputEvent::MouseInput { state, button: MouseButton::Right }).is_some(),
        controller.after(
            InputEvent::MouseInput { state, button: MouseButton::Left },
        ).mouse_left_pressed == state.pressed(),
        controller.after(
            InputEvent::MouseInput { state, button: MouseButton::Right },
        ).mouse_right_pressed == state.pressed(),
        controller.after(
            InputEvent::MouseInput { state: ElementState::Pressed, button: MouseButton::Left },
        ).mouse_left_pressed,
        !controller.after(
            InputEvent::MouseInput { state: ElementState::Pressed, button: MouseButton::Left },
        ).after(
            InputEvent::MouseInput { state: ElementState::Released, button: MouseButton::Left },
        ).mouse_left_pressed,
{
}

/// The keys that drive a switch, written out.
pub open spec fn is_bound_key(key: VirtualKeyCode) -> bool {
    ||| key == VirtualKeyCode::Space
    ||| key == VirtualKeyCode::LShift
    ||| key == VirtualKeyCode::W
    ||| key == VirtualKeyCode::A
    ||| key == VirtualKeyCode::S
    ||| key == VirtualKeyCode::D
    ||| key == VirtualKeyCode::Up
    ||| key == VirtualKeyCode::Left
    ||| key == VirtualKeyCode::Down
    ||| key == VirtualKeyCode::Right
}

/// A press or release of a key outside the ten bound ones, such as Q, is not
/// consumed and leaves every switch where it was.
pub proof fn lemma_unbound_key_is_ignored(
    controller: CameraController,
    state: ElementState,
    key: VirtualKeyCode,
)
    requires
        !is_bound_key(key),
    ensures
        latched(InputEvent::KeyboardInput { state, virtual_keycode: Some(key) }).is_none(),
        controller.after(InputEvent::KeyboardInput { state, virtual_keycode: Some(key) })
            == controller,
{
}

/// Q is one of the keys that are not bound.
pub proof fn lemma_q_is_unbound()
    ensures
        !is_bound_key(VirtualKeyCode::Q),
        key_control(VirtualKeyCode::Q).is_none(),
{
}

/// An event is consumed exactly if it is a left or right mouse button event
/// or an event of one of the ten bound keys.
pub proof fn lemma_consumed_events(event: InputEvent)
    ensures
        latched(event).is_some() <==> match event {
            InputEvent::MouseInput { button, .. } => button == MouseButton::Left || button
                == MouseButton::Right,
            InputEvent::KeyboardInput { virtual_keycode: Some(key), .. } => is_bound_key(key),
            _ => false,
        },
{
}

} // verus!
