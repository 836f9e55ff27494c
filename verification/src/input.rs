//! The held-key input model: which logical keys steer the camera, which of
//! them are down right now, and the movement that the held set asks for.

use vstd::prelude::*;
use vstd::string::*;

verus! {

/// A logical key as the windowing layer reports it.
#[derive(Clone, Debug)]
pub enum Key {
    /// A key that produces text, with the text it produces.
    Character(String),
    /// The space bar.
    Space,
    /// Either control key.
    Control,
    /// Any other key.
    Other,
}

/// The seven commands that a key can give to the camera.
#[derive(Clone, Copy, Debug, PartialEq, Eq, Structural)]
pub enum CameraKey {
    Forward,
    Backward,
    Left,
    Right,
    Up,
    Down,
    Reset,
}

/// Whether `text` is exactly the one character `c`.
pub open spec fn is_char(text: Seq<char>, c: char) -> bool {
    text.len() == 1 && text[0] == c
}

/// The command bound to a key: `w`, `s`, `a`, `d` move forward, backward,
/// left and right, space and control move up and down, `r` resets. Every
/// other key, an upper-case letter included, is bound to nothing.
pub open spec fn command_of(key: Key) -> Option<CameraKey> {
    match key {
        Key::Character(text) => {
            if is_char(text@, 'w') {
                Some(CameraKey::Forward)
            } else if is_char(text@, 's') {
                Some(CameraKey::Backward)
            } else if is_char(text@, 'a') {
                Some(CameraKey::Left)
            } else if is_char(text@, 'd') {
                Some(CameraKey::Right)
            } else if is_char(text@, 'r') {
                Some(CameraKey::Reset)
            } else {
                None
            }
        },
        Key::Space => Some(CameraKey::Up),
        Key::Control => Some(CameraKey::Down),
        Key::Other => None,
    }
}

/// The command bound to a key, if any.
pub fn classify(key: &Key) -> (command: Option<CameraKey>)
    ensures
        command == command_of(*key),
{
    match key {
        Key::Character(text) => {
            let s: &str = text.as_str();
            if s.unicode_len() != 1 {
                return None;
            }
            let c: char = s.get_char(0);
            if c == 'w' {
                Some(CameraKey::Forward)
            } else if c == 's' {
                Some(CameraKey::Backward)
            } else if c == 'a' {
                Some(CameraKey::Left)
            } else if c == 'd' {
                Some(CameraKey::Right)
            } else if c == 'r' {
                Some(CameraKey::Reset)
            } else {
                None
            }
        },
        Key::Space => Some(CameraKey::Up),
        Key::Control => Some(CameraKey::Down),
        Key::Other => None,
    }
}

/// The set of camera commands whose keys are down.
#[derive(Clone, Copy, Debug)]
pub struct PressedKeys {
    forward: bool,
    backward: bool,
    left: bool,
    right: bool,
    up: bool,
    down: bool,
    reset: bool,
}

impl View for PressedKeys {
    type V = Set<CameraKey>;

    closed spec fn view(&self) -> Set<CameraKey> {
        Set::new(|k: CameraKey| self.flag(k))
    }
}

impl PressedKeys {
    spec fn flag(&self, key: CameraKey) -> bool {
        match key {
            CameraKey::Forward => self.forward,
            CameraKey::Backward => self.backward,
            CameraKey::Left => self.left,
            CameraKey::Right => self.right,
            CameraKey::Up => self.up,
            CameraKey::Down => self.down,
            CameraKey::Reset => self.reset,
        }
    }

    /// The set in which no key is down.
    pub fn new() -> (keys: PressedKeys)
        ensures
            keys@ == Set::<CameraKey>::empty(),
    {
        let keys = PressedKeys {
            forward: false,
            backward: false,
            left: false,
            right: false,
            up: false,
            down: false,
            reset: false,
        };
        assert(keys@ =~= Set::<CameraKey>::empty());
        keys
    }

    /// Whether the key of `key` is down.
    pub fn contains(&self, key: CameraKey) -> (held: bool)
        ensures
            held == self@.contains(key),
    {
        match key {
            CameraKey::Forward => self.forward,
            CameraKey::Backward => self.backward,
            CameraKey::Left => self.left,
            CameraKey::Right => self.right,
            CameraKey::Up => self.up,
            CameraKey::Down => self.down,
            CameraKey::Reset => self.reset,
        }
    }

    fn put(&mut self, key: CameraKey, held: bool)
        ensures
            forall|k: CameraKey|
                final(self).flag(k) == (if k == key {
                    held
                } else {
                    old(self).flag(k)
                }),
    {
        match key {
            CameraKey::Forward => {
                self.forward = held;
            },
            CameraKey::Backward => {
                self.backward = held;
            },
            CameraKey::Left => {
                self.left = held;
            },
            CameraKey::Right => {
                self.right = held;
            },
            CameraKey::Up => {
                self.up = held;
            },
            CameraKey::Down => {
                self.down = held;
            },
            CameraKey::Reset => {
                self.reset = held;
            },
        }
    }

    /// Marks `key` as down. Returns whether it was up before.
    pub fn insert(&mut self, key: CameraKey) -> (fresh: bool)
        ensures
            final(self)@ == old(self)@.insert(key),
            fresh == !old(self)@.contains(key),
    {
        let fresh = !self.contains(key);
        self.put(key, true);
        assert(self@ =~= old(self)@.insert(key));
        fresh
    }

    /// Marks `key` as up. Returns whether it was down before.
    pub fn remove(&mut self, key: CameraKey) -> (present: bool)
        ensures
            final(self)@ == old(self)@.remove(key),
            present == old(self)@.contains(key),
    {
        let present = self.contains(key);
        self.put(key, false);
        assert(self@ =~= old(self)@.remove(key));
        present
    }
}

/// What the held keys ask of the camera in one tick: either a sign for each
/// of the three axes of motion, or that the pose be reset, in which case no
/// axis asks for anything.
#[derive(Clone, Copy, Debug, PartialEq, Eq, Structural)]
pub struct MoveIntent {
    /// `1` along the facing direction, `-1` against it, `0` for neither.
    pub forward: i8,
    /// `1` to the right of the facing direction, `-1` to the left.
    pub strafe: i8,
    /// `1` along the up axis, `-1` against it.
    pub vertical: i8,
    /// Whether the default pose is to be restored instead of moving.
    pub reset: bool,
}

/// Net sign of one axis whose two keys pull in opposite directions.
pub open spec fn axis(positive: bool, negative: bool) -> int {
    (if positive {
        1int
    } else {
        0int
    }) - (if negative {
        1int
    } else {
        0int
    })
}

/// The movement that a held set asks for. With the reset key down it is the
/// reset alone: the pose goes back to its default and no step is taken,
/// whatever else is held. Otherwise each axis gets the net sign of its two
/// keys.
pub open spec fn intent_of(held: Set<CameraKey>) -> MoveIntent {
    if held.contains(CameraKey::Reset) {
        MoveIntent { forward: 0, strafe: 0, vertical: 0, reset: true }
    } else {
        MoveIntent {
            forward: axis(
                held.contains(CameraKey::Forward),
                held.contains(CameraKey::Backward),
            ) as i8,
            strafe: axis(held.contains(CameraKey::Right), held.contains(CameraKey::Left)) as i8,
            vertical: axis(held.contains(CameraKey::Up), held.contains(CameraKey::Down)) as i8,
            reset: false,
        }
    }
}

impl MoveIntent {
    /// No axis asks for motion.
    pub open spec fn still(&self) -> bool {
        self.forward == 0 && self.strafe == 0 && self.vertical == 0
    }

    /// Whether no axis asks for motion.
    pub fn is_still(&self) -> (s: bool)
        ensures
            s == self.still(),
    {
        self.forward == 0 && self.strafe == 0 && self.vertical == 0
    }
}

fn net(positive: bool, negative: bool) -> (sign: i8)
    ensures
        sign == axis(positive, negative),
{
    if positive == negative {
        0
    } else if positive {
        1
    } else {
        -1
    }
}

impl PressedKeys {
    /// The movement that the held set asks for. It depends on the set alone,
    /// so a set that stays the same asks for the same step every tick.
    pub fn movement(&self) -> (intent: MoveIntent)
        ensures
            intent == intent_of(self@),
    {
        if self.reset {
            MoveIntent { forward: 0, strafe: 0, vertical: 0, reset: true }
        } else {
            MoveIntent {
                forward: net(self.forward, self.backward),
                strafe: net(self.right, self.left),
                vertical: net(self.up, self.down),
                reset: false,
            }
        }
    }
}

/// Two keys that pull against each other cancel: with both down, their axis
/// asks for no motion, whatever else is held.
pub proof fn lemma_opposing_keys_cancel(held: Set<CameraKey>)
    ensures
        held.contains(CameraKey::Forward) && held.contains(CameraKey::Backward) ==> intent_of(
            held,
        ).forward == 0,
        held.contains(CameraKey::Right) && held.contains(CameraKey::Left) ==> intent_of(
            held,
        ).strafe == 0,
        held.contains(CameraKey::Up) && held.contains(CameraKey::Down) ==> intent_of(
            held,
        ).vertical == 0,
{
}

/// While the reset key is down the camera takes no step: the intent is the
/// reset and nothing else, whichever movement keys are held with it.
pub proof fn lemma_reset_instead_of_moving(held: Set<CameraKey>)
    requires
        held.contains(CameraKey::Reset),
    ensures
        intent_of(held).reset,
        intent_of(held).still(),
{
}

/// With forward and backward both down, and nothing asked of the other two
/// axes, the camera stays where it is.
pub proof fn lemma_forward_backward_still(held: Set<CameraKey>)
    requires
        held.contains(CameraKey::Forward),
        held.contains(CameraKey::Backward),
        held.contains(CameraKey::Right) == held.contains(CameraKey::Left),
        held.contains(CameraKey::Up) == held.contains(CameraKey::Down),
    ensures
        intent_of(held).still(),
{
}

/// An event of the window, reduced to what the renderer acts on.
#[derive(Clone, Debug)]
pub enum WindowEvent {
    /// A key went down.
    KeyPressed(Key),
    /// A key went up.
    KeyReleased(Key),
    /// The cursor moved; the position itself travels beside the event.
    CursorMoved,
    /// The window has a new inner size, in pixels.
    Resized { width: u32, height: u32 },
    /// The user asked to close the window.
    CloseRequested,
    /// The window wants a new frame.
    RedrawRequested,
    /// Anything else.
    Other,
}

/// What the caller is to do with the camera after an event was routed.
#[derive(Clone, Copy, Debug, PartialEq, Eq, Structural)]
pub enum Routed {
    /// A key event: the held set is up to date, nothing else to do.
    Keys,
    /// The first cursor position: remember it and turn nothing.
    SeedCursor,
    /// A later cursor position: turn by its distance from the last one.
    Turn,
    /// Not an input event: nothing was touched.
    Ignored,
}

/// The state of the input router as contracts see it.
pub struct RouterView {
    pub held: Set<CameraKey>,
    pub cursor_seen: bool,
}

/// The held set after `key` went down.
pub open spec fn after_press(held: Set<CameraKey>, key: Key) -> Set<CameraKey> {
    match command_of(key) {
        Some(command) => held.insert(command),
        None => held,
    }
}

/// The held set after `key` went up.
pub open spec fn after_release(held: Set<CameraKey>, key: Key) -> Set<CameraKey> {
    match command_of(key) {
        Some(command) => held.remove(command),
        None => held,
    }
}

/// The router's state after `event`.
pub open spec fn routed_state(before: RouterView, event: WindowEvent) -> RouterView {
    match event {
        WindowEvent::KeyPressed(key) => RouterView {
            held: after_press(before.held, key),
            cursor_seen: before.cursor_seen,
        },
        WindowEvent::KeyReleased(key) => RouterView {
            held: after_release(before.held, key),
            cursor_seen: before.cursor_seen,
        },
        WindowEvent::CursorMoved => RouterView { held: before.held, cursor_seen: true },
        _ => before,
    }
}

/// What the caller is told after `event`.
pub open spec fn routed_action(before: RouterView, event: WindowEvent) -> Routed {
    match event {
        WindowEvent::KeyPressed(_) => Routed::Keys,
        WindowEvent::KeyReleased(_) => Routed::Keys,
        WindowEvent::CursorMoved => if before.cursor_seen {
            Routed::Turn
        } else {
            Routed::SeedCursor
        },
        _ => Routed::Ignored,
    }
}

/// Keeps the held-key set and remembers whether a cursor position was seen.
#[derive(Clone, Copy, Debug)]
pub struct InputRouter {
    pressed: PressedKeys,
    cursor_seen: bool,
}

impl View for InputRouter {
    type V = RouterView;

    closed spec fn view(&self) -> RouterView {
        RouterView { held: self.pressed@, cursor_seen: self.cursor_seen }
    }
}

impl InputRouter {
    /// A router with no key down and no cursor position seen.
    pub fn new() -> (router: InputRouter)
        ensures
            router@.held == Set::<CameraKey>::empty(),
            !router@.cursor_seen,
    {
        InputRouter { pressed: PressedKeys::new(), cursor_seen: false }
    }

    /// The held set.
    pub fn pressed_keys(&self) -> (keys: &PressedKeys)
        ensures
            keys@ == self@.held,
    {
        &self.pressed
    }

    /// Routes one event: a key press or release updates the held set, a
    /// cursor move is passed on as a seed or a turn, anything else is left
    /// alone.
    pub fn process_input(&mut self, event: &WindowEvent) -> (routed: Routed)
        ensures
            final(self)@ == routed_state(old(self)@, *event),
            routed == routed_action(old(self)@, *event),
    {
        match event {
            WindowEvent::KeyPressed(key) => {
                match classify(key) {
                    Some(command) => {
                        self.pressed.insert(command);
                    },
                    None => {},
                }
                Routed::Keys
            },
            WindowEvent::KeyReleased(key) => {
                match classify(key) {
                    Some(command) => {
                        self.pressed.remove(command);
                    },
                    None => {},
                }
                Routed::Keys
            },
            WindowEvent::CursorMoved => {
                let seen = self.cursor_seen;
                self.cursor_seen = true;
                if seen {
                    Routed::Turn
                } else {
                    Routed::SeedCursor
                }
            },
            _ => Routed::Ignored,
        }
    }
}

} // verus!
