use vstd::prelude::*;

verus! {

/// A keyboard key, as far as the camera controls tell keys apart.
/// Every key without a binding is `Other`.
#[derive(Clone, Copy, Debug, PartialEq, Eq, Structural)]
pub enum Key {
    W,
    A,
    S,
    D,
    Space,
    LShift,
    Q,
    E,
    Other,
}

/// Whether a key event presses or releases its key.
#[derive(Clone, Copy, Debug, PartialEq, Eq, Structural)]
pub enum KeyState {
    Pressed,
    Released,
}

/// A held-key control of the camera: six movement directions and two roll
/// directions.
#[derive(Clone, Copy, Debug, PartialEq, Eq, Structural)]
pub enum Control {
    Forward,
    Backward,
    Left,
    Right,
    Up,
    Down,
    RollCounterClockwise,
    RollClockwise,
}

/// The fixed key bindings: W/S forward and backward, A/D left and right,
/// Space up, left Shift down, Q/E roll counter-clockwise and clockwise.
pub open spec fn bound_control(key: Key) -> Option<Control> {
    match key {
        Key::W => Some(Control::Forward),
        Key::S => Some(Control::Backward),
        Key::A => Some(Control::Left),
        Key::D => Some(Control::Right),
        Key::Space => Some(Control::Up),
        Key::LShift => Some(Control::Down),
        Key::Q => Some(Control::RollCounterClockwise),
        Key::E => Some(Control::RollClockwise),
        Key::Other => None,
    }
}

/// The set of held controls after one key event: a press of a bound key holds
/// its control, any other state of it releases the control, and a key without
/// a binding leaves the set as it was.
pub open spec fn next_held(held: Set<Control>, key: Key, state: KeyState) -> Set<Control> {
    match bound_control(key) {
        Some(c) => if state == KeyState::Pressed {
            held.insert(c)
        } else {
            held.remove(c)
        },
        None => held,
    }
}

/// The control that a key is bound to, if any.
pub fn control_for_key(key: Key) -> (r: Option<Control>)
    ensures
        r == bound_control(key),
{
    match key {
        Key::W => Some(Control::Forward),
        Key::S => Some(Control::Backward),
        Key::A => Some(Control::Left),
        Key::D => Some(Control::Right),
        Key::Space => Some(Control::Up),
        Key::LShift => Some(Control::Down),
        Key::Q => Some(Control::RollCounterClockwise),
        Key::E => Some(Control::RollClockwise),
        Key::Other => None,
    }
}

/// Which held-key controls are active. Each one stays active from the press
/// of its key until a release of it.
#[derive(Clone, Copy, Debug)]
pub struct HeldControls {
    forward: bool,
    backward: bool,
    left: bool,
    right: bool,
    up: bool,
    down: bool,
    counter_clockwise: bool,
    clockwise: bool,
}

impl HeldControls {
    pub closed spec fn holds(&self, c: Control) -> bool {
        match c {
            Control::Forward => self.forward,
            Control::Backward => self.backward,
            Control::Left => self.left,
            Control::Right => self.right,
            Control::Up => self.up,
            Control::Down => self.down,
            Control::RollCounterClockwise => self.counter_clockwise,
            Control::RollClockwise => self.clockwise,
        }
    }
}

impl View for HeldControls {
    type V = Set<Control>;

    closed spec fn view(&self) -> Set<Control> {
        Set::new(|c: Control| self.holds(c))
    }
}

impl HeldControls {
    /// No control held.
    pub fn new() -> (r: Self)
        ensures
            r@ == Set::<Control>::empty(),
    {
        let r = HeldControls {
            forward: false,
            backward: false,
            left: false,
            right: false,
            up: false,
            down: false,
            counter_clockwise: false,
            clockwise: false,
        };
        assert(r@ =~= Set::<Control>::empty());
        r
    }

    /// Whether control `c` is held.
    pub fn is_held(&self, c: Control) -> (r: bool)
        ensures
            r == self@.contains(c),
    {
        match c {
            Control::Forward => self.forward,
            Control::Backward => self.backward,
            Control::Left => self.left,
            Control::Right => self.right,
            Control::Up => self.up,
            Control::Down => self.down,
            Control::RollCounterClockwise => self.counter_clockwise,
            Control::RollClockwise => self.clockwise,
        }
    }

    /// The intensity of control `c`: 1 while it is held, 0 otherwise.
    pub fn intensity(&self, c: Control) -> (r: u8)
        ensures
            r == (if self@.contains(c) { 1u8 } else { 0u8 }),
    {
        if self.is_held(c) {
            1
        } else {
            0
        }
    }

    /// Records one key event. Returns whether the key has a binding; a key
    /// without one changes nothing.
    pub fn process_keyboard(&mut self, key: Key, state: KeyState) -> (recognized: bool)
        ensures
            recognized == bound_control(key).is_some(),
            final(self)@ == next_held(old(self)@, key, state),
    {
        let pressed = match state {
            KeyState::Pressed => true,
            KeyState::Released => false,
        };
        match control_for_key(key) {
            Some(c) => {
                match c {
                    Control::Forward => self.forward = pressed,
                    Control::Backward => self.backward = pressed,
                    Control::Left => self.left = pressed,
                    Control::Right => self.right = pressed,
                    Control::Up => self.up = pressed,
                    Control::Down => self.down = pressed,
                    Control::RollCounterClockwise => self.counter_clockwise = pressed,
                    Control::RollClockwise => self.clockwise = pressed,
                }
                assert(self@ =~= next_held(old(self)@, key, state));
                true
            },
            None => {
                assert(self@ =~= old(self)@);
                false
            },
        }
    }
}

/// A press of a key followed at once by a release of it leaves the key's
/// control released and every other control as it was before the press; a
/// key without a binding changes nothing. Exactly the keys other than `Other`
/// have a binding.
pub proof fn lemma_press_then_release(held: Set<Control>, key: Key)
    ensures
        bound_control(key) is Some <==> key != Key::Other,
        bound_control(key) matches Some(c) ==> {
            &&& !next_held(next_held(held, key, KeyState::Pressed), key, KeyState::Released).contains(c)
            &&& next_held(next_held(held, key, KeyState::Pressed), key, KeyState::Released)
                == held.remove(c)
        },
        bound_control(key) is None ==> next_held(
            next_held(held, key, KeyState::Pressed),
            key,
            KeyState::Released,
        ) == held,
{
    if let Some(c) = bound_control(key) {
        assert(held.insert(c).remove(c) =~= held.remove(c));
    }
}

} // verus!
