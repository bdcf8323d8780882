use vstd::prelude::*;

use crate::control::{
    next_control, key_handled, target_change, CameraControl, KeyInput, KeyState, MoveVertical,
    TargetChange, DOWN_KEY, TOGGLE_TARGET_KEY, UP_KEY,
};

verus! {

/// The state reached from `c` by handling `events` in order.
pub open spec fn after_events(c: CameraControl, events: Seq<KeyInput>) -> CameraControl
    decreases events.len(),
{
    if events.len() == 0 {
        c
    } else {
        next_control(after_events(c, events.drop_last()), events.last())
    }
}

/// A release of the Up or the Down key.
pub open spec fn is_vertical_release(e: KeyInput) -> bool {
    (e.scancode == UP_KEY || e.scancode == DOWN_KEY) && e.state == KeyState::Released
}

/// The intent that a press of the Up or the Down key asks for.
pub open spec fn vertical_press(e: KeyInput) -> Option<MoveVertical> {
    if e.state == KeyState::Pressed && e.scancode == UP_KEY {
        Some(MoveVertical::Up)
    } else if e.state == KeyState::Pressed && e.scancode == DOWN_KEY {
        Some(MoveVertical::Down)
    } else {
        None
    }
}

/// The intent of the first Up or Down press in `events`, if any.
pub open spec fn earliest_vertical_press(events: Seq<KeyInput>) -> Option<MoveVertical>
    decreases events.len(),
{
    if events.len() == 0 {
        None
    } else if vertical_press(events[0]) is Some {
        vertical_press(events[0])
    } else {
        earliest_vertical_press(events.drop_first())
    }
}

proof fn lemma_earliest_vertical_press_push(s: Seq<KeyInput>, e: KeyInput)
    ensures
        earliest_vertical_press(s.push(e)) == (if earliest_vertical_press(s) is Some {
            earliest_vertical_press(s)
        } else {
            vertical_press(e)
        }),
    decreases s.len(),
{
    if s.len() == 0 {
        assert(s.push(e)[0] == e);
        assert(s.push(e).drop_first() =~= Seq::<KeyInput>::empty());
        assert(earliest_vertical_press(Seq::<KeyInput>::empty()) is None);
    } else {
        assert(s.push(e)[0] == s[0]);
        assert(s.push(e).drop_first() =~= s.drop_first().push(e));
        lemma_earliest_vertical_press_push(s.drop_first(), e);
    }
}

/// The vertical intent held after a run of key events. A release of either
/// vertical key clears the intent, whichever key set it; a press sets it only
/// when none is held, so the first press since the last release wins. Let `i`
/// be the index just past the last vertical release (0 if there is none).
/// Then the intent after all events is the one held before them when no
/// release came and one was held, and otherwise the intent of the first Up or
/// Down press from `i` on, or none.
pub proof fn lemma_vertical_intent_after_events(c: CameraControl, events: Seq<KeyInput>, i: int)
    requires
        0 <= i <= events.len(),
        i > 0 ==> is_vertical_release(events[i - 1]),
        forall|j: int| i <= j < events.len() ==> !is_vertical_release(#[trigger] events[j]),
    ensures
        after_events(c, events).vertical == (if i == 0 && c.vertical is Some {
            c.vertical
        } else {
            earliest_vertical_press(events.subrange(i, events.len() as int))
        }),
    decreases events.len(),
{
    let n = events.len() as int;
    if n == 0 {
        assert(events.subrange(0, 0) =~= Seq::<KeyInput>::empty());
    } else if i == n {
        assert(events.subrange(n, n) =~= Seq::<KeyInput>::empty());
    } else {
        let pre = events.drop_last();
        assert forall|j: int| i <= j < pre.len() implies !is_vertical_release(#[trigger] pre[j]) by {
            assert(pre[j] == events[j]);
        }
        lemma_vertical_intent_after_events(c, pre, i);
        assert(!is_vertical_release(events[n - 1]));
        let s = events.subrange(i, n - 1);
        assert(pre.subrange(i, n - 1) =~= s);
        assert(s.push(events.last()) =~= events.subrange(i, n));
        lemma_earliest_vertical_press_push(s, events.last());
    }
}

/// Pressing the target key flips between locked-on and free look: from free
/// look it asks for a new target and is reported handled; from locked-on it
/// drops the target and is not reported handled. The movement intents are
/// left as they were, and pressing it twice restores the state.
pub proof fn lemma_toggle_target(c: CameraControl)
    ensures
        ({
            let e = KeyInput { scancode: TOGGLE_TARGET_KEY, state: KeyState::Pressed };
            let d = next_control(c, e);
            &&& d.locked == !c.locked
            &&& d.vertical == c.vertical
            &&& d.horizontal == c.horizontal
            &&& target_change(c, e) == (if c.locked {
                TargetChange::Release
            } else {
                TargetChange::Acquire
            })
            &&& key_handled(c, e) == !c.locked
            &&& next_control(d, e) == c
        }),
{
}

} // verus!
