use vstd::prelude::*;

use crate::layout::LayoutV;
use crate::manager::{
    ActionV, EventV, ManagerV, close_step, event_layout, focus_step, input_step, seed_step,
    step_state,
};

verus! {

/// The state after a whole sequence of events, applied in delivery order.
pub open spec fn apply_events(m: ManagerV, evs: Seq<EventV>) -> ManagerV
    decreases evs.len(),
{
    if evs.len() == 0 {
        m
    } else {
        step_state(apply_events(m, evs.drop_last()), evs.last())
    }
}

/// Focus and close events alone never move the layout believed active: after
/// any sequence of events with no input-change event among them, the belief
/// is what it was before.
pub proof fn lemma_window_events_preserve_current_layout(m: ManagerV, evs: Seq<EventV>)
    requires
        forall|i: int| 0 <= i < evs.len() ==> !(evs[i] is Input),
    ensures
        apply_events(m, evs).current_layout == m.current_layout,
    decreases evs.len(),
{
    if evs.len() > 0 {
        assert forall|i: int| 0 <= i < evs.len() - 1 implies !(evs.drop_last()[i] is Input) by {
            assert(evs.drop_last()[i] == evs[i]);
        }
        lemma_window_events_preserve_current_layout(m, evs.drop_last());
        assert(!(evs[evs.len() - 1] is Input));
    }
}

/// Answering a query moves no other field: remembering a queried layout for
/// the focused container never moves the layout believed active, the focus,
/// or the device.
pub proof fn lemma_seed_preserves_all_but_cache(m: ManagerV, l: LayoutV)
    ensures
        seed_step(m, l).current_layout == m.current_layout,
        seed_step(m, l).current_container == m.current_container,
        seed_step(m, l).device == m.device,
{
}

/// After a close event for a container, a focus event for the same id
/// behaves as if the container had never been seen: nothing stale can be
/// restored. The focus never issues a switch; it seeds the cache from the
/// believed layout, or asks for a live query when none is known yet.
pub proof fn lemma_close_then_focus_is_fresh(m: ManagerV, c: i64)
    ensures
        !close_step(m, c).cache.contains_key(c),
        !(focus_step(close_step(m, c), c).1 is Switch),
        m.current_layout matches Some(cur) ==> focus_step(close_step(m, c), c) == (
            ManagerV {
                current_container: Some(c),
                cache: close_step(m, c).cache.insert(c, cur),
                ..close_step(m, c)
            },
            ActionV::Nothing,
        ),
        m.current_layout is None ==> focus_step(close_step(m, c), c) == (
            ManagerV { current_container: Some(c), ..close_step(m, c) },
            ActionV::Query,
        ),
{
}

/// A focus event asks for a switch command only towards the remembered
/// layout of the focused container, and only when that layout differs from
/// the one believed active: re-focusing a window whose remembered layout
/// already matches is a no-op on the wire.
pub proof fn lemma_focus_switches_only_when_layouts_differ(m: ManagerV, id: i64)
    ensures
        focus_step(m, id).1 matches ActionV::Switch(l) ==> {
            &&& m.cache.contains_key(id)
            &&& l == m.cache[id]
            &&& m.current_layout != Some(l)
        },
{
}

/// Delivering the same input-change event twice in a row mutates the state
/// only effectively once: the second delivery is a no-op, because the layout
/// it carries already matches.
pub proof fn lemma_input_event_idempotent(
    m: ManagerV,
    names: Seq<Seq<char>>,
    active: Option<Seq<char>>,
)
    ensures
        input_step(input_step(m, names, active), names, active) == input_step(m, names, active),
{
    let m1 = input_step(m, names, active);
    match event_layout(names, active) {
        None => {
        },
        Some(l) => {
            assert(input_step(m1, names, active) =~= m1);
        },
    }
}

} // verus!
