//! The debounce laws of the dispatch state machine, stated over whole
//! event sequences and proved once and for all.

use vstd::prelude::*;

use crate::dispatch::{
    lemma_trigger_seq_index, spec_held, spec_run, spec_step, spec_trigger, spec_trigger_seq,
};
use crate::events::{ButtonId, InputEvent, KeyId, SoundCategory};

verus! {

/// After at least one press of key `k`, with nothing but presses of `k`
/// in between, the key is recorded as held.
proof fn lemma_press_run_holds(m: Map<KeyId, bool>, k: KeyId, es: Seq<InputEvent>)
    requires
        es.len() >= 1,
        forall|i: int| 0 <= i < es.len() ==> es[i] == InputEvent::KeyPress(k),
    ensures
        spec_held(spec_run(m, es), k),
    decreases es.len(),
{
    if es.len() > 1 {
        lemma_press_run_holds(m, k, es.drop_last());
    }
}

/// A run of N >= 1 consecutive press events for one key, with no
/// interleaved release, produces exactly one key-down trigger — the
/// first event — whenever the key starts out not held; if the key is
/// already held, none of the presses triggers.
pub proof fn lemma_repeated_press_triggers_once(m: Map<KeyId, bool>, k: KeyId, es: Seq<InputEvent>)
    requires
        es.len() >= 1,
        forall|i: int| 0 <= i < es.len() ==> es[i] == InputEvent::KeyPress(k),
    ensures
        spec_trigger_seq(m, es)[0] == (if spec_held(m, k) {
            None::<SoundCategory>
        } else {
            Some(SoundCategory::KeyDown)
        }),
        forall|i: int| 1 <= i < es.len() ==> spec_trigger_seq(m, es)[i] is None,
{
    lemma_trigger_seq_index(m, es, 0);
    assert(es.take(0) =~= Seq::<InputEvent>::empty());
    assert forall|i: int| 1 <= i < es.len() implies spec_trigger_seq(m, es)[i] is None by {
        lemma_trigger_seq_index(m, es, i);
        assert(forall|j: int| 0 <= j < i ==> es.take(i)[j] == InputEvent::KeyPress(k));
        lemma_press_run_holds(m, k, es.take(i));
    }
}

/// Whether the events of a sequence strictly alternate between presses
/// and releases of key `k`, starting with a press.
pub open spec fn spec_alternating(es: Seq<InputEvent>, k: KeyId) -> bool {
    forall|i: int|
        0 <= i < es.len() ==> es[i] == (if i % 2 == 0 {
            InputEvent::KeyPress(k)
        } else {
            InputEvent::KeyRelease(k)
        })
}

/// Running an alternating sequence for key `k` from a state where `k`
/// is not held leaves `k` held after an odd number of events and not
/// held after an even number.
proof fn lemma_alternating_state(m: Map<KeyId, bool>, k: KeyId, es: Seq<InputEvent>)
    requires
        !spec_held(m, k),
        spec_alternating(es, k),
    ensures
        spec_held(spec_run(m, es), k) <==> es.len() % 2 == 1,
    decreases es.len(),
{
    if es.len() > 0 {
        assert(spec_alternating(es.drop_last(), k));
        lemma_alternating_state(m, k, es.drop_last());
    }
}

/// In a strictly alternating press/release run for one key that starts
/// with the key not held, every event is an edge, so every event
/// triggers: presses a key-down sound, releases a key-up sound.
pub proof fn lemma_alternating_always_triggers(m: Map<KeyId, bool>, k: KeyId, es: Seq<InputEvent>)
    requires
        !spec_held(m, k),
        spec_alternating(es, k),
    ensures
        forall|i: int|
            0 <= i < es.len() ==> spec_trigger_seq(m, es)[i] == (if i % 2 == 0 {
                Some(SoundCategory::KeyDown)
            } else {
                Some(SoundCategory::KeyUp)
            }),
{
    assert forall|i: int| 0 <= i < es.len() implies spec_trigger_seq(m, es)[i] == (if i % 2 == 0 {
        Some(SoundCategory::KeyDown)
    } else {
        Some(SoundCategory::KeyUp)
    }) by {
        lemma_trigger_seq_index(m, es, i);
        assert(spec_alternating(es.take(i), k));
        lemma_alternating_state(m, k, es.take(i));
    }
}

/// A release event for a key never seen before is an edge: it triggers
/// a key-up sound and records the key as released.
pub proof fn lemma_release_of_unseen_key(m: Map<KeyId, bool>, k: KeyId)
    requires
        !m.contains_key(k),
    ensures
        spec_trigger(m, InputEvent::KeyRelease(k)) == Some(SoundCategory::KeyUp),
        spec_step(m, InputEvent::KeyRelease(k)) == m.insert(k, false),
        spec_step(m, InputEvent::KeyRelease(k)).contains_key(k),
        !spec_held(spec_step(m, InputEvent::KeyRelease(k)), k),
{
}

/// Mouse button events are stateless triggers: whatever the key state
/// and whatever came before, a button press triggers a mouse-down
/// sound, a button release a mouse-up sound, and neither touches the
/// key state.
pub proof fn lemma_buttons_always_trigger(m: Map<KeyId, bool>, b: ButtonId)
    ensures
        spec_trigger(m, InputEvent::ButtonPress(b)) == Some(SoundCategory::MouseDown),
        spec_trigger(m, InputEvent::ButtonRelease(b)) == Some(SoundCategory::MouseUp),
        spec_step(m, InputEvent::ButtonPress(b)) == m,
        spec_step(m, InputEvent::ButtonRelease(b)) == m,
{
}

} // verus!
