//! Keyboard readings: what the trigger handler learns of its key each frame.

use vstd::prelude::*;

verus! {

/// The state of the trigger key in one frame.
#[derive(Clone, Copy, Debug, PartialEq, Eq, Structural)]
pub struct KeyState {
    /// The key is down in this frame.
    pub pressed: bool,
    /// The key is down in this frame and was up in the frame before.
    pub just_pressed: bool,
}

/// The reading of a frame in which the key is `down`, after a frame in which
/// it was `was_down`.
pub open spec fn reading(was_down: bool, down: bool) -> KeyState {
    KeyState { pressed: down, just_pressed: down && !was_down }
}

/// How a variant reads its trigger key.
#[derive(Clone, Copy, Debug, PartialEq, Eq, Structural)]
pub enum TriggerMode {
    /// Fires once per press: in the frame in which the key goes down.
    Edge,
    /// Fires in every frame in which the key is down.
    Level,
}

impl TriggerMode {
    pub open spec fn spec_reads(self, key: KeyState) -> bool {
        match self {
            TriggerMode::Edge => key.just_pressed,
            TriggerMode::Level => key.pressed,
        }
    }

    /// Whether the key state counts as a trigger in this mode.
    pub fn reads(self, key: KeyState) -> (b: bool)
        ensures
            b == self.spec_reads(key),
    {
        match self {
            TriggerMode::Edge => key.just_pressed,
            TriggerMode::Level => key.pressed,
        }
    }
}

/// Turns the raw key position of successive frames into key states.
pub struct KeyTracker {
    down: bool,
}

impl KeyTracker {
    /// Whether the key was down in the frame seen last.
    pub closed spec fn is_down(&self) -> bool {
        self.down
    }

    /// A tracker that has seen no frame yet: the key counts as up.
    pub fn new() -> (t: KeyTracker)
        ensures
            !t.is_down(),
    {
        KeyTracker { down: false }
    }

    /// Takes the key position of the next frame and returns its key state.
    pub fn observe(&mut self, down: bool) -> (key: KeyState)
        ensures
            key == reading(old(self).is_down(), down),
            final(self).is_down() == down,
    {
        let key = KeyState { pressed: down, just_pressed: down && !self.down };
        self.down = down;
        key
    }
}

/// A key that stays down gives one edge: the frame after a frame in which
/// the key was down never reads as just pressed, whatever its own position,
/// while it reads as pressed for as long as the key is down.
pub proof fn law_one_edge_per_press(was_down: bool, down: bool)
    ensures
        !reading(true, down).just_pressed,
        reading(was_down, true).pressed,
        !TriggerMode::Edge.spec_reads(reading(true, down)),
        TriggerMode::Level.spec_reads(reading(was_down, true)),
{
}

} // verus!
