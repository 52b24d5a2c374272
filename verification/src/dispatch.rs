//! The per-key debounced dispatch state machine.
//!
//! `ListenState` records, for every key that has ever been observed,
//! whether it is currently held. An incoming event triggers a sound
//! exactly when it is an edge: a press of a key that is not held, a
//! release of a key that is not known to be released, or any mouse
//! button transition. Repeated presses delivered by OS key-repeat
//! while a key is held trigger nothing.

use vstd::prelude::*;

use crate::events::{InputEvent, KeyId, SoundCategory};
use crate::pools::SamplePools;

verus! {

broadcast use vstd::std_specs::hash::group_hash_axioms;

/// Whether the state map records key `k` as currently held. A key
/// never seen before is treated as not held.
pub open spec fn spec_held(m: Map<KeyId, bool>, k: KeyId) -> bool {
    m.contains_key(k) && m[k]
}

/// Whether the state map records key `k` as released. This is distinct
/// from "not held": a key never seen before is neither held nor
/// recorded as released, and a release event for it is still an edge.
pub open spec fn spec_recorded_released(m: Map<KeyId, bool>, k: KeyId) -> bool {
    m.contains_key(k) && !m[k]
}

/// The sound, if any, that one event triggers in state `m`.
pub open spec fn spec_trigger(m: Map<KeyId, bool>, e: InputEvent) -> Option<SoundCategory> {
    match e {
        InputEvent::KeyPress(k) => if spec_held(m, k) {
            None
        } else {
            Some(SoundCategory::KeyDown)
        },
        InputEvent::KeyRelease(k) => if spec_recorded_released(m, k) {
            None
        } else {
            Some(SoundCategory::KeyUp)
        },
        InputEvent::ButtonPress(_) => Some(SoundCategory::MouseDown),
        InputEvent::ButtonRelease(_) => Some(SoundCategory::MouseUp),
        InputEvent::Other => None,
    }
}

/// The state map after one event. Key events record the key's new
/// logical state; mouse buttons and other events leave the map alone.
pub open spec fn spec_step(m: Map<KeyId, bool>, e: InputEvent) -> Map<KeyId, bool> {
    match e {
        InputEvent::KeyPress(k) => m.insert(k, true),
        InputEvent::KeyRelease(k) => m.insert(k, false),
        InputEvent::ButtonPress(_) => m,
        InputEvent::ButtonRelease(_) => m,
        InputEvent::Other => m,
    }
}

/// The state map after a whole sequence of events, applied in order.
pub open spec fn spec_run(m: Map<KeyId, bool>, es: Seq<InputEvent>) -> Map<KeyId, bool>
    decreases es.len(),
{
    if es.len() == 0 {
        m
    } else {
        spec_step(spec_run(m, es.drop_last()), es.last())
    }
}

/// The sequence of triggers produced by a sequence of events applied in
/// order from state `m`: one entry per event, in delivery order.
pub open spec fn spec_trigger_seq(m: Map<KeyId, bool>, es: Seq<InputEvent>) -> Seq<
    Option<SoundCategory>,
>
    decreases es.len(),
{
    if es.len() == 0 {
        Seq::empty()
    } else {
        spec_trigger_seq(m, es.drop_last()).push(
            spec_trigger(spec_run(m, es.drop_last()), es.last()),
        )
    }
}

/// The length of the trigger sequence equals the length of the event
/// sequence: no event is dropped and none is dispatched twice.
pub proof fn lemma_trigger_seq_len(m: Map<KeyId, bool>, es: Seq<InputEvent>)
    ensures
        spec_trigger_seq(m, es).len() == es.len(),
    decreases es.len(),
{
    if es.len() > 0 {
        lemma_trigger_seq_len(m, es.drop_last());
    }
}

/// The trigger recorded for the event at position `i` is exactly the
/// trigger of that event in the state reached by the `i` events before
/// it: events are dispatched one at a time, in delivery order.
pub proof fn lemma_trigger_seq_index(m: Map<KeyId, bool>, es: Seq<InputEvent>, i: int)
    requires
        0 <= i < es.len(),
    ensures
        spec_trigger_seq(m, es)[i] == spec_trigger(spec_run(m, es.take(i)), es[i]),
    decreases es.len(),
{
    lemma_trigger_seq_len(m, es.drop_last());
    if i == es.len() - 1 {
        assert(es.take(i) =~= es.drop_last());
    } else {
        lemma_trigger_seq_index(m, es.drop_last(), i);
        assert(es.drop_last().take(i) =~= es.take(i));
        assert(es.drop_last()[i] == es[i]);
    }
}

/// Running one more event steps the state reached by the prefix.
pub proof fn lemma_run_snoc(m: Map<KeyId, bool>, es: Seq<InputEvent>, i: int)
    requires
        0 <= i < es.len(),
    ensures
        spec_run(m, es.take(i + 1)) == spec_step(spec_run(m, es.take(i)), es[i]),
{
    assert(es.take(i + 1).drop_last() =~= es.take(i));
    assert(es.take(i + 1).last() == es[i]);
}

/// One playback request: which category's pool to draw from and which
/// sample of that pool to play.
#[derive(Clone, Copy, Debug, PartialEq, Eq, Structural)]
pub struct PlayRequest {
    pub category: SoundCategory,
    pub index: usize,
}

/// The last known logical state of every observed key.
pub struct ListenState {
    key_states: std::collections::HashMap<KeyId, bool>,
}

impl View for ListenState {
    type V = Map<KeyId, bool>;

    closed spec fn view(&self) -> Map<KeyId, bool> {
        self.key_states@
    }
}

impl ListenState {
    /// A fresh state in which no key has ever been observed.
    pub fn new() -> (s: Self)
        ensures
            s@ == Map::<KeyId, bool>::empty(),
    {
        ListenState { key_states: std::collections::HashMap::new() }
    }

    /// The recorded state of key `k`: `None` if never observed,
    /// otherwise whether it is currently held.
    pub fn key_state(&self, k: KeyId) -> (r: Option<bool>)
        ensures
            r == if self@.contains_key(k) {
                Some(self@[k])
            } else {
                None::<bool>
            },
    {
        match self.key_states.get(&k) {
            Some(held) => Some(*held),
            None => None,
        }
    }

    /// Apply one event: update the key state and report which sound
    /// category, if any, the event triggers.
    pub fn dispatch(&mut self, event: InputEvent) -> (trigger: Option<SoundCategory>)
        ensures
            final(self)@ == spec_step(old(self)@, event),
            trigger == spec_trigger(old(self)@, event),
    {
        match event {
            InputEvent::KeyPress(k) => {
                let was_held = match self.key_states.get(&k) {
                    Some(held) => *held,
                    None => false,
                };
                self.key_states.insert(k, true);
                if was_held {
                    None
                } else {
                    Some(SoundCategory::KeyDown)
                }
            },
            InputEvent::KeyRelease(k) => {
                let was_released = match self.key_states.get(&k) {
                    Some(held) => !*held,
                    None => false,
                };
                self.key_states.insert(k, false);
                if was_released {
                    None
                } else {
                    Some(SoundCategory::KeyUp)
                }
            },
            InputEvent::ButtonPress(_) => Some(SoundCategory::MouseDown),
            InputEvent::ButtonRelease(_) => Some(SoundCategory::MouseUp),
            InputEvent::Other => None,
        }
    }

    /// Dispatch one event and, if it triggers, draw one sample of the
    /// triggered category uniformly at random. At most one state
    /// mutation and at most one play request result from one event.
    pub fn handle_event(&mut self, event: InputEvent, pools: &SamplePools) -> (play: Option<
        PlayRequest,
    >)
        requires
            pools.wf(),
        ensures
            final(self)@ == spec_step(old(self)@, event),
            play is Some <==> spec_trigger(old(self)@, event) is Some,
            play matches Some(p) ==> Some(p.category) == spec_trigger(old(self)@, event)
                && p.index < pools.spec_size(p.category),
    {
        match self.dispatch(event) {
            Some(category) => Some(PlayRequest { category, index: pools.draw(category) }),
            None => None,
        }
    }

    /// Dispatch a whole sequence of events, in exactly the order given:
    /// one outcome per event, none dropped, none duplicated, and each
    /// outcome determined by the state the preceding events left.
    pub fn run_events(&mut self, events: &Vec<InputEvent>, pools: &SamplePools) -> (plays: Vec<
        Option<PlayRequest>,
    >)
        requires
            pools.wf(),
        ensures
            plays@.len() == events@.len(),
            final(self)@ == spec_run(old(self)@, events@),
            forall|i: int|
                0 <= i < events@.len() ==> ((#[trigger] plays@[i]) is Some <==> spec_trigger_seq(
                    old(self)@,
                    events@,
                )[i] is Some),
            forall|i: int|
                0 <= i < events@.len() ==> ((#[trigger] plays@[i]) matches Some(p) ==> Some(
                    p.category,
                ) == spec_trigger_seq(old(self)@, events@)[i] && p.index < pools.spec_size(
                    p.category,
                )),
    {
        let ghost m0 = self@;
        let mut plays: Vec<Option<PlayRequest>> = Vec::new();
        let mut j: usize = 0;
        while j < events.len()
            invariant
                pools.wf(),
                j <= events@.len(),
                plays@.len() == j,
                self@ == spec_run(m0, events@.take(j as int)),
                forall|i: int|
                    0 <= i < j ==> ((#[trigger] plays@[i]) is Some <==> spec_trigger(
                        spec_run(m0, events@.take(i)),
                        events@[i],
                    ) is Some),
                forall|i: int|
                    0 <= i < j ==> ((#[trigger] plays@[i]) matches Some(p) ==> Some(p.category)
                        == spec_trigger(spec_run(m0, events@.take(i)), events@[i])
                        && p.index < pools.spec_size(p.category)),
            decreases events@.len() - j,
        {
            let play = self.handle_event(events[j], pools);
            plays.push(play);
            proof {
                lemma_run_snoc(m0, events@, j as int);
            }
            j = j + 1;
        }
        proof {
            assert(events@.take(events@.len() as int) =~= events@);
            lemma_trigger_seq_len(m0, events@);
            assert forall|i: int| 0 <= i < events@.len() implies spec_trigger_seq(m0, events@)[i]
                == spec_trigger(spec_run(m0, events@.take(i)), events@[i]) by {
                lemma_trigger_seq_index(m0, events@, i);
            }
        }
        plays
    }
}

} // verus!
