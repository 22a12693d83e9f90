//! Runs of the chord engine: what holds of the engine after any sequence of
//! key events and changes of the enablement flags.

use crate::keys::{ActivationSource, ActivationState, Key, KeysView, Transition, hold_count_modulus};
use vstd::prelude::*;

verus! {

/// One thing that can happen to an engine.
pub enum Input {
    /// A key went down (`true`) or up (`false`).
    Key(Key, bool),
    /// Both enablement flags were replaced, the left one first.
    Enable(bool, bool),
}

/// What one input adds to the number of secondary keys held: a press one, a
/// release minus one, anything else nothing.
pub open spec fn hold_change(input: Input) -> int {
    match input {
        Input::Key(Key::Alt, true) => 1,
        Input::Key(Key::Alt, false) => -1,
        _ => 0,
    }
}

/// Presses of the secondary key less its releases, over a whole sequence.
pub open spec fn hold_balance(inputs: Seq<Input>) -> int
    decreases inputs.len(),
{
    if inputs.len() == 0 {
        0
    } else {
        hold_balance(inputs.drop_last()) + hold_change(inputs.last())
    }
}

/// Every input is a key event.
pub open spec fn keys_only(inputs: Seq<Input>) -> bool {
    forall|i: int| 0 <= i < inputs.len() ==> #[trigger] inputs[i] is Key
}

impl KeysView {
    /// The engine after one input.
    pub open spec fn after(self, input: Input) -> KeysView {
        match input {
            Input::Key(key, pressed) => self.after_key(key, pressed),
            Input::Enable(left, right) => self.with_enabled(left, right),
        }
    }

    /// What one input has the listener told, if anything.
    pub open spec fn told(self, input: Input) -> Option<Transition> {
        match input {
            Input::Key(key, pressed) => self.emitted(key, pressed),
            Input::Enable(_, _) => None,
        }
    }

    /// The engine after a sequence of inputs, taken in order.
    pub open spec fn run(self, inputs: Seq<Input>) -> KeysView
        decreases inputs.len(),
    {
        if inputs.len() == 0 {
            self
        } else {
            self.run(inputs.drop_last()).after(inputs.last())
        }
    }

    /// What a sequence of inputs has the listener told, in order.
    pub open spec fn transcript(self, inputs: Seq<Input>) -> Seq<Transition>
        decreases inputs.len(),
    {
        if inputs.len() == 0 {
            seq![]
        } else {
            let earlier = self.transcript(inputs.drop_last());
            match self.run(inputs.drop_last()).told(inputs.last()) {
                Some(transition) => earlier.push(transition),
                None => earlier,
            }
        }
    }

    /// The engine as input `i` finds it: after the first `i` inputs.
    pub open spec fn before(self, inputs: Seq<Input>, i: int) -> KeysView {
        self.run(inputs.take(i))
    }

    /// Input `i` switches the engine on.
    pub open spec fn activated_at(self, inputs: Seq<Input>, i: int) -> bool {
        &&& inputs[i] matches Input::Key(key, pressed)
        &&& self.before(inputs, i).activates(key, pressed)
    }

    /// Input `i` leaves neither side satisfied.
    pub open spec fn unsatisfied_after(self, inputs: Seq<Input>, i: int) -> bool {
        self.before(inputs, i + 1).chord() is None
    }

    /// Input `i` switches the engine on, and every later input leaves a side
    /// satisfied.
    pub open spec fn activation_stands(self, inputs: Seq<Input>, i: int) -> bool {
        &&& self.activated_at(inputs, i)
        &&& forall|j: int| i < j < inputs.len() ==> !#[trigger] self.unsatisfied_after(inputs, j)
    }

    /// Input `i` is a press of the secondary key that finds the hold-count at
    /// its greatest value, so that it wraps around to zero.
    pub open spec fn wraps_at(self, inputs: Seq<Input>, i: int) -> bool {
        &&& inputs[i] == Input::Key(Key::Alt, true)
        &&& self.before(inputs, i).alt_pressed == hold_count_modulus() - 1
    }

    /// While active, a side is satisfied.
    pub open spec fn settled(self) -> bool {
        self.state == ActivationState::Active ==> self.chord() is Some
    }
}

/// Every input keeps an engine well formed.
pub proof fn lemma_after_keeps_wf(s: KeysView, input: Input)
    requires
        s.wf(),
    ensures
        s.after(input).wf(),
{
}

/// Every sequence of inputs keeps an engine well formed: whatever happens, a
/// source is recorded exactly while the engine is active.
pub proof fn lemma_run_keeps_wf(start: KeysView, inputs: Seq<Input>)
    requires
        start.wf(),
    ensures
        start.run(inputs).wf(),
    decreases inputs.len(),
{
    if inputs.len() > 0 {
        lemma_run_keeps_wf(start, inputs.drop_last());
        lemma_after_keeps_wf(start.run(inputs.drop_last()), inputs.last());
    }
}

/// The first `i` inputs of a sequence are the first `i` of any longer prefix
/// of it, and the whole sequence is its own longest prefix.
proof fn lemma_before_in_prefix(start: KeysView, inputs: Seq<Input>, n: int, i: int)
    requires
        0 <= i <= n <= inputs.len(),
    ensures
        start.before(inputs.take(n), i) == start.before(inputs, i),
        start.before(inputs, inputs.len() as int) == start.run(inputs),
{
    assert(inputs.take(n).take(i) =~= inputs.take(i));
    assert(inputs.take(inputs.len() as int) =~= inputs);
}

/// The engine that input `i` leaves is the engine that input `i + 1` finds.
proof fn lemma_before_step(start: KeysView, inputs: Seq<Input>, i: int)
    requires
        0 <= i < inputs.len(),
    ensures
        start.before(inputs, i + 1) == start.before(inputs, i).after(inputs[i]),
{
    assert(inputs.take(i + 1).drop_last() =~= inputs.take(i));
}

/// Where no press wraps the hold-count around and the enablement flags stay
/// as they are, an engine that starts inactive is never active without a
/// satisfied side.
proof fn lemma_run_settled(start: KeysView, inputs: Seq<Input>)
    requires
        start.wf(),
        start.state == ActivationState::Inactive,
        keys_only(inputs),
        forall|i: int| 0 <= i < inputs.len() ==> !#[trigger] start.wraps_at(inputs, i),
    ensures
        start.run(inputs).settled(),
        start.run(inputs).wf(),
    decreases inputs.len(),
{
    lemma_run_keeps_wf(start, inputs);
    if inputs.len() > 0 {
        let n = inputs.len() - 1;
        let prefix = inputs.drop_last();
        assert(prefix =~= inputs.take(n));
        assert forall|i: int| 0 <= i < prefix.len() implies !#[trigger] start.wraps_at(
            prefix,
            i,
        ) by {
            lemma_before_in_prefix(start, inputs, n, i);
            assert(!start.wraps_at(inputs, i));
        }
        assert(keys_only(prefix)) by {
            assert forall|i: int| 0 <= i < prefix.len() implies #[trigger] prefix[i] is Key by {
                assert(inputs[i] is Key);
            }
        }
        lemma_run_settled(start, prefix);
        lemma_run_keeps_wf(start, prefix);
        assert(inputs[n] is Key);
        assert(!start.wraps_at(inputs, n));
        assert(start.before(inputs, n) == start.run(prefix));
    }
}

/// After any interleaving of presses and releases of the tracked keys, the
/// engine is active if and only if some event switched it on and every event
/// since has left a side satisfied.
///
/// The engine starts inactive, with any keys held and any sides enabled. The
/// sequence holds no press of the secondary key that wraps the hold-count
/// around: such a press leaves no side satisfied and, being a press, leaves
/// the engine active.
pub proof fn lemma_active_iff_activation_stands(start: KeysView, inputs: Seq<Input>)
    requires
        start.wf(),
        start.state == ActivationState::Inactive,
        keys_only(inputs),
        forall|i: int| 0 <= i < inputs.len() ==> !#[trigger] start.wraps_at(inputs, i),
    ensures
        start.run(inputs).state == ActivationState::Active <==> exists|i: int|
            0 <= i < inputs.len() && #[trigger] start.activation_stands(inputs, i),
    decreases inputs.len(),
{
    if inputs.len() > 0 {
        let n = inputs.len() - 1;
        let prefix = inputs.drop_last();
        let last = start.run(prefix);
        assert(prefix =~= inputs.take(n));
        assert forall|i: int| 0 <= i < prefix.len() implies !#[trigger] start.wraps_at(
            prefix,
            i,
        ) by {
            lemma_before_in_prefix(start, inputs, n, i);
            assert(!start.wraps_at(inputs, i));
        }
        assert(keys_only(prefix)) by {
            assert forall|i: int| 0 <= i < prefix.len() implies #[trigger] prefix[i] is Key by {
                assert(inputs[i] is Key);
            }
        }
        lemma_active_iff_activation_stands(start, prefix);
        lemma_run_settled(start, prefix);
        lemma_run_settled(start, inputs);
        lemma_before_in_prefix(start, inputs, n, n);
        assert(start.before(inputs, n) == last);
        assert(start.before(inputs, n + 1) == start.run(inputs));
        assert(inputs[n] is Key);
        // An activation inside the prefix stands in the whole sequence
        // exactly if it stands in the prefix and the last input leaves a
        // side satisfied.
        assert forall|i: int| 0 <= i < n implies (#[trigger] start.activation_stands(inputs, i)
            <==> start.activation_stands(prefix, i) && !start.unsatisfied_after(inputs, n)) by {
            lemma_before_in_prefix(start, inputs, n, i);
            assert(prefix[i] == inputs[i]);
            assert forall|j: int| i < j < n implies (#[trigger] start.unsatisfied_after(prefix, j)
                <==> start.unsatisfied_after(inputs, j)) by {
                lemma_before_in_prefix(start, inputs, n, j + 1);
            }
            if start.activation_stands(inputs, i) {
                assert forall|j: int| i < j < prefix.len() implies !#[trigger] start.unsatisfied_after(
                    prefix,
                    j,
                ) by {
                    assert(!start.unsatisfied_after(inputs, j));
                }
            }
            if start.activation_stands(prefix, i) && !start.unsatisfied_after(inputs, n) {
                assert forall|j: int| i < j < inputs.len() implies !#[trigger] start.unsatisfied_after(
                    inputs,
                    j,
                ) by {
                    if j < n {
                        assert(!start.unsatisfied_after(prefix, j));
                    }
                }
            }
        }
        if start.run(inputs).state == ActivationState::Active {
            if last.state == ActivationState::Active {
                let i = choose|i: int| 0 <= i < prefix.len() && #[trigger] start.activation_stands(
                    prefix,
                    i,
                );
                assert(start.activation_stands(inputs, i));
            } else {
                assert(start.activation_stands(inputs, n));
            }
        } else {
            assert forall|i: int| 0 <= i < inputs.len() implies !#[trigger] start.activation_stands(
                inputs,
                i,
            ) by {
                if i < n && start.activation_stands(inputs, i) {
                    assert(start.activation_stands(prefix, i));
                }
            }
        }
    }
}

/// While the engine stays active the recorded source stays what it was,
/// whichever side is satisfied meanwhile and whichever side is enabled; and
/// the input that ends the activation has the listener told that source.
///
/// The engine is active from input `i` to input `j`, as each of them finds
/// it. Then input `j` either leaves it active, with the same source and
/// nothing told, or switches it off and reports the source that input `i`
/// found.
pub proof fn lemma_source_stable(start: KeysView, inputs: Seq<Input>, i: int, j: int)
    requires
        start.wf(),
        0 <= i <= j < inputs.len(),
        forall|k: int|
            i <= k <= j ==> (#[trigger] start.before(inputs, k)).state == ActivationState::Active,
    ensures
        start.before(inputs, i).source is Some,
        start.before(inputs, j).source == start.before(inputs, i).source,
        start.before(inputs, j + 1).state == ActivationState::Active ==> {
            &&& start.before(inputs, j + 1).source == start.before(inputs, i).source
            &&& start.before(inputs, j).told(inputs[j]) is None
        },
        start.before(inputs, j + 1).state == ActivationState::Inactive ==> {
            &&& start.before(inputs, j + 1).source is None
            &&& start.before(inputs, j).told(inputs[j]) == Some(
                Transition {
                    state: ActivationState::Inactive,
                    source: start.before(inputs, i).source,
                },
            )
        },
    decreases j - i,
{
    lemma_run_keeps_wf(start, inputs.take(i));
    lemma_run_keeps_wf(start, inputs.take(j));
    lemma_before_step(start, inputs, j);
    if i < j {
        assert(start.before(inputs, j - 1).state == ActivationState::Active);
        lemma_source_stable(start, inputs, i, j - 1);
    }
}

/// Transition `k` of what was told is in order: it comes with a source, it
/// enters the state that the one before it left, and on the way out it
/// reports the source that the one before it recorded.
pub open spec fn told_in_turn(told: Seq<Transition>, k: int) -> bool {
    &&& told[k].source is Some
    &&& k > 0 ==> told[k].state != told[k - 1].state
    &&& k > 0 && told[k].state == ActivationState::Inactive ==> told[k].source == told[k
        - 1].source
}

/// What a listener has heard fits the engine: the state is the last one
/// told, or the first one where nothing was told; every transition is in
/// order, the first one after the state at the start; and while the engine is
/// active its source is the one last told.
pub open spec fn heard_fits(start: KeysView, told: Seq<Transition>, end: KeysView) -> bool {
    &&& told.len() == 0 ==> end.state == start.state && end.source == start.source
    &&& told.len() > 0 ==> {
        &&& end.state == told.last().state
        &&& told[0].state != start.state
        &&& told[0].state == ActivationState::Inactive ==> told[0].source == start.source
        &&& end.state == ActivationState::Active ==> end.source == told.last().source
    }
    &&& forall|k: int| 0 <= k < told.len() ==> #[trigger] told_in_turn(told, k)
}

/// One more input, and what was heard still fits.
proof fn lemma_heard_fits_after(
    start: KeysView,
    told: Seq<Transition>,
    s: KeysView,
    input: Input,
)
    requires
        start.wf(),
        s.wf(),
        heard_fits(start, told, s),
    ensures
        heard_fits(
            start,
            match s.told(input) {
                Some(transition) => told.push(transition),
                None => told,
            },
            s.after(input),
        ),
{
    match s.told(input) {
        Some(transition) => {
            let n = told.len() as int;
            let next = told.push(transition);
            assert(transition.state != s.state);
            assert(transition.source is Some);
            assert forall|k: int| 0 <= k < next.len() implies #[trigger] told_in_turn(
                next,
                k,
            ) by {
                if k < n {
                    assert(told_in_turn(told, k));
                }
            }
        },
        None => {},
    }
}

/// A listener that hears every transition knows the engine, whatever the
/// inputs: see [`heard_fits`]. So each transition is told once, and the way
/// out reports the source that was recorded on the way in.
pub proof fn lemma_listener_follows_engine(start: KeysView, inputs: Seq<Input>)
    requires
        start.wf(),
    ensures
        heard_fits(start, start.transcript(inputs), start.run(inputs)),
    decreases inputs.len(),
{
    if inputs.len() > 0 {
        let earlier = inputs.drop_last();
        lemma_listener_follows_engine(start, earlier);
        lemma_run_keeps_wf(start, earlier);
        lemma_heard_fits_after(start, start.transcript(earlier), start.run(earlier), inputs.last());
    }
}

/// A press of a modifier that is already held changes neither flag nor the
/// hold-count; and where the engine is active, or no side is satisfied, it
/// changes nothing at all and has nothing told.
pub proof fn lemma_repeated_press_changes_no_count(s: KeysView, key: Key)
    requires
        s.wf(),
        key == Key::MetaLeft && s.meta_left || key == Key::MetaRight && s.meta_right,
    ensures
        s.after_key(key, true).meta_left == s.meta_left,
        s.after_key(key, true).meta_right == s.meta_right,
        s.after_key(key, true).alt_pressed == s.alt_pressed,
        s.state == ActivationState::Active || s.chord() is None ==> {
            &&& s.after_key(key, true) == s
            &&& s.emitted(key, true) is None
        },
{
}

/// A press of the secondary key followed by its release leaves the hold-count
/// where it was, and so does a release followed by a press.
pub proof fn lemma_press_release_nets_to_prior_count(s: KeysView)
    requires
        s.wf(),
    ensures
        s.after_key(Key::Alt, true).after_key(Key::Alt, false).alt_pressed == s.alt_pressed,
        s.after_key(Key::Alt, false).after_key(Key::Alt, true).alt_pressed == s.alt_pressed,
{
}

/// After any sequence of inputs the hold-count is what it was, plus the
/// presses of the secondary key, less its releases, modulo
/// [`hold_count_modulus`]: each press with its release nets to nothing.
pub proof fn lemma_hold_count_is_balance(start: KeysView, inputs: Seq<Input>)
    requires
        start.wf(),
    ensures
        start.run(inputs).alt_pressed == (start.alt_pressed + hold_balance(inputs))
            % hold_count_modulus(),
    decreases inputs.len(),
{
    if inputs.len() > 0 {
        lemma_hold_count_is_balance(start, inputs.drop_last());
        lemma_run_keeps_wf(start, inputs.drop_last());
    }
}

/// Replacing the enablement flags of an active engine leaves it active with
/// the source it had, whichever side is switched off; the key event after it
/// is the first to look at the chord again.
pub proof fn lemma_disabling_keeps_activation(s: KeysView, left: bool, right: bool)
    requires
        s.wf(),
    ensures
        s.with_enabled(left, right).state == s.state,
        s.with_enabled(left, right).source == s.source,
        s.with_enabled(left, right).meta_left == s.meta_left,
        s.with_enabled(left, right).meta_right == s.meta_right,
        s.with_enabled(left, right).alt_pressed == s.alt_pressed,
        s.with_enabled(left, right).wf(),
        forall|key: Key|
            s.state == ActivationState::Active ==> (#[trigger] s.with_enabled(left, right).after_key(
                key,
                true,
            )).state == ActivationState::Active,
        forall|key: Key|
            s.state == ActivationState::Active && #[trigger] s.with_enabled(
                left,
                right,
            ).deactivates(key, false) ==> s.with_enabled(left, right).emitted(key, false) == Some(
                Transition { state: ActivationState::Inactive, source: s.source },
            ),
{
}

/// The chord names at most one side, the left one wherever it is satisfied,
/// and never `EitherChord`.
pub proof fn lemma_chord_names_one_side(s: KeysView)
    ensures
        s.chord() == Some(ActivationSource::LeftChord) <==> s.left_satisfied(),
        s.chord() == Some(ActivationSource::RightChord) <==> !s.left_satisfied()
            && s.right_satisfied(),
        s.chord() is None <==> !s.left_satisfied() && !s.right_satisfied(),
        s.chord() != Some(ActivationSource::EitherChord),
{
}

} // verus!
