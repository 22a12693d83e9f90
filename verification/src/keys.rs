//! The chord engine: a state machine over press and release events of two
//! modifier keys and one secondary key.
//!
//! A chord is a modifier held together with the secondary key. The engine
//! follows the two modifiers by a flag each and the secondary key by a
//! hold-count, and derives from them one signal: listening on or off.

use vstd::prelude::*;

verus! {

/// Whether the engine is listening.
#[derive(Debug, Clone, Copy, PartialEq, Eq, Structural)]
pub enum ActivationState {
    Inactive,
    Active,
}

/// The side whose chord switched the engine on.
///
/// `EitherChord` belongs to the vocabulary only: no rule of the engine
/// produces it.
#[derive(Debug, Clone, Copy, PartialEq, Eq, Structural)]
pub enum ActivationSource {
    LeftChord,
    RightChord,
    EitherChord,
}

/// A key as the engine sees it: one of the three it tracks, or any other.
#[derive(Debug, Clone, Copy, PartialEq, Eq, Structural)]
pub enum Key {
    /// The left modifier.
    MetaLeft,
    /// The right modifier.
    MetaRight,
    /// The secondary key. Two physical keys may report it.
    Alt,
    /// Every key the engine does not track.
    Other,
}

/// What the registered listener is to be told: the state entered, and the
/// source that was recorded when the engine last became active.
#[derive(Debug, Clone, Copy, PartialEq, Eq)]
pub struct Transition {
    pub state: ActivationState,
    pub source: Option<ActivationSource>,
}

/// The number of values the hold-count can take: it is kept in one byte and
/// wraps around at both ends.
pub open spec fn hold_count_modulus() -> int {
    256
}

/// The mathematical content of an engine.
pub struct KeysView {
    /// The left modifier is held.
    pub meta_left: bool,
    /// The right modifier is held.
    pub meta_right: bool,
    /// How many instances of the secondary key are held.
    pub alt_pressed: nat,
    pub state: ActivationState,
    pub source: Option<ActivationSource>,
    /// The left chord may activate.
    pub enabled_left: bool,
    /// The right chord may activate.
    pub enabled_right: bool,
}

impl KeysView {
    /// A source is recorded exactly while the engine is active, it is never
    /// `EitherChord`, and the hold-count fits its byte.
    pub open spec fn wf(self) -> bool {
        &&& self.alt_pressed < hold_count_modulus()
        &&& (self.source is Some <==> self.state == ActivationState::Active)
        &&& self.source != Some(ActivationSource::EitherChord)
    }

    /// An engine that has seen nothing: no key held, inactive, both sides
    /// enabled.
    pub open spec fn initial() -> KeysView {
        KeysView {
            meta_left: false,
            meta_right: false,
            alt_pressed: 0,
            state: ActivationState::Inactive,
            source: None,
            enabled_left: true,
            enabled_right: true,
        }
    }

    /// The left chord is held and enabled.
    pub open spec fn left_satisfied(self) -> bool {
        self.alt_pressed > 0 && self.meta_left && self.enabled_left
    }

    /// The right chord is held and enabled.
    pub open spec fn right_satisfied(self) -> bool {
        self.alt_pressed > 0 && self.meta_right && self.enabled_right
    }

    /// The satisfied side, the left one first; `None` where neither is.
    pub open spec fn chord(self) -> Option<ActivationSource> {
        if self.left_satisfied() {
            Some(ActivationSource::LeftChord)
        } else if self.right_satisfied() {
            Some(ActivationSource::RightChord)
        } else {
            None
        }
    }

    /// The engine with both enablement flags replaced and nothing else
    /// touched.
    pub open spec fn with_enabled(self, left: bool, right: bool) -> KeysView {
        KeysView { enabled_left: left, enabled_right: right, ..self }
    }

    /// The flags and the hold-count after one key event, before the state is
    /// looked at. A press of the secondary key adds one to the hold-count and
    /// a release takes one away, both modulo [`hold_count_modulus`].
    pub open spec fn noted(self, key: Key, pressed: bool) -> KeysView {
        match key {
            Key::MetaLeft => KeysView { meta_left: pressed, ..self },
            Key::MetaRight => KeysView { meta_right: pressed, ..self },
            Key::Alt => KeysView {
                alt_pressed: if pressed {
                    ((self.alt_pressed as int + 1) % hold_count_modulus()) as nat
                } else {
                    ((self.alt_pressed as int - 1) % hold_count_modulus()) as nat
                },
                ..self
            },
            Key::Other => self,
        }
    }

    /// The event switches the engine on: a press of a tracked key that finds
    /// the engine inactive and leaves a side satisfied.
    pub open spec fn activates(self, key: Key, pressed: bool) -> bool {
        &&& key != Key::Other
        &&& pressed
        &&& self.state == ActivationState::Inactive
        &&& self.noted(key, pressed).chord() is Some
    }

    /// The event switches the engine off: a release of a tracked key that
    /// finds the engine active and leaves no side satisfied.
    pub open spec fn deactivates(self, key: Key, pressed: bool) -> bool {
        &&& key != Key::Other
        &&& !pressed
        &&& self.state == ActivationState::Active
        &&& self.noted(key, pressed).chord() is None
    }

    /// The engine after one key event.
    pub open spec fn after_key(self, key: Key, pressed: bool) -> KeysView {
        let noted = self.noted(key, pressed);
        if self.activates(key, pressed) {
            KeysView { state: ActivationState::Active, source: noted.chord(), ..noted }
        } else if self.deactivates(key, pressed) {
            KeysView { state: ActivationState::Inactive, source: None, ..noted }
        } else {
            noted
        }
    }

    /// What one key event has the listener told, if anything. On the way in
    /// it is the side just recorded, on the way out the side recorded at the
    /// way in.
    pub open spec fn emitted(self, key: Key, pressed: bool) -> Option<Transition> {
        if self.activates(key, pressed) {
            Some(
                Transition {
                    state: ActivationState::Active,
                    source: self.noted(key, pressed).chord(),
                },
            )
        } else if self.deactivates(key, pressed) {
            Some(Transition { state: ActivationState::Inactive, source: self.source })
        } else {
            None
        }
    }
}

/// The engine: modifier flags, the hold-count of the secondary key, the
/// activation state with its source, and the enablement flag of each side.
pub struct Keys {
    meta_left: bool,
    meta_right: bool,
    alt_pressed: u8,
    state: ActivationState,
    source: Option<ActivationSource>,
    enabled_left: bool,
    enabled_right: bool,
}

/// An engine is read through its content.
impl View for Keys {
    type V = KeysView;

    closed spec fn view(&self) -> KeysView {
        KeysView {
            meta_left: self.meta_left,
            meta_right: self.meta_right,
            alt_pressed: self.alt_pressed as nat,
            state: self.state,
            source: self.source,
            enabled_left: self.enabled_left,
            enabled_right: self.enabled_right,
        }
    }
}

impl Keys {
    /// State and source go together, in every engine that exists: a source
    /// is recorded exactly while the engine is active, and it names a side.
    #[verifier::type_invariant]
    spec fn paired(self) -> bool {
        &&& (self.source is Some <==> self.state == ActivationState::Active)
        &&& self.source != Some(ActivationSource::EitherChord)
    }

    /// An engine that has seen nothing.
    pub fn new() -> (keys: Keys)
        ensures
            keys@ == KeysView::initial(),
    {
        Keys {
            meta_left: false,
            meta_right: false,
            alt_pressed: 0,
            state: ActivationState::Inactive,
            source: None,
            enabled_left: true,
            enabled_right: true,
        }
    }

    /// Replaces both enablement flags. State and source stay as they are,
    /// also where the side that activated is switched off: only a later key
    /// event looks at the chord again.
    pub fn set_enabled(&mut self, left: bool, right: bool)
        ensures
            final(self)@ == old(self)@.with_enabled(left, right),
            final(self)@.state == old(self)@.state,
            final(self)@.source == old(self)@.source,
            final(self)@.wf(),
    {
        proof {
            use_type_invariant(&*self);
        }
        self.enabled_left = left;
        self.enabled_right = right;
    }

    /// The side whose chord is held and enabled right now, the left one
    /// first.
    pub fn check_chord(&self) -> (chord: Option<ActivationSource>)
        ensures
            chord == self@.chord(),
    {
        if self.alt_pressed == 0 {
            return None;
        }
        if self.meta_left && self.enabled_left {
            Some(ActivationSource::LeftChord)
        } else if self.meta_right && self.enabled_right {
            Some(ActivationSource::RightChord)
        } else {
            None
        }
    }

    /// Takes one key event: notes it in the flags or the hold-count, looks at
    /// the chord again, and switches on or off where the event calls for it.
    /// Returns what the listener is to be told, `None` where the state
    /// stayed. Keys that are not tracked change nothing.
    pub fn handle_key(&mut self, key: Key, pressed: bool) -> (fired: Option<Transition>)
        ensures
            final(self)@ == old(self)@.after_key(key, pressed),
            fired == old(self)@.emitted(key, pressed),
            fired matches Some(told) ==> told.source is Some && told.source != Some(
                ActivationSource::EitherChord,
            ),
            final(self)@.wf(),
    {
        proof {
            use_type_invariant(&*self);
        }
        match key {
            Key::MetaLeft => {
                self.meta_left = pressed;
            },
            Key::MetaRight => {
                self.meta_right = pressed;
            },
            Key::Alt => {
                if pressed {
                    self.alt_pressed = self.alt_pressed.wrapping_add(1);
                } else {
                    self.alt_pressed = self.alt_pressed.wrapping_sub(1);
                }
            },
            Key::Other => {
                return None;
            },
        }
        let chord = self.check_chord();
        if pressed {
            if self.state == ActivationState::Inactive && chord.is_some() {
                *self = Keys { state: ActivationState::Active, source: chord, ..*self };
                return Some(Transition { state: ActivationState::Active, source: chord });
            }
        } else {
            if self.state == ActivationState::Active && chord.is_none() {
                let recorded = self.source;
                *self = Keys { state: ActivationState::Inactive, source: None, ..*self };
                return Some(Transition { state: ActivationState::Inactive, source: recorded });
            }
        }
        None
    }

    /// The current state.
    pub fn get_state(&self) -> (state: ActivationState)
        ensures
            state == self@.state,
            self@.wf(),
    {
        proof {
            use_type_invariant(self);
        }
        self.state
    }

    /// The source recorded for the current activation: `Some` exactly while
    /// the engine is active.
    pub fn get_source(&self) -> (source: Option<ActivationSource>)
        ensures
            source == self@.source,
            source is Some <==> self@.state == ActivationState::Active,
            source != Some(ActivationSource::EitherChord),
            self@.wf(),
    {
        proof {
            use_type_invariant(self);
        }
        self.source
    }
}

impl Default for Keys {
    fn default() -> (keys: Keys)
        ensures
            keys@ == KeysView::initial(),
    {
        Keys::new()
    }
}

} // verus!
