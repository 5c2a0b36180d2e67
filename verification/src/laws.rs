//! What holds of the game whatever the inputs are.

use crate::config::GameState;
use crate::geometry::Point;
use crate::keys::FixKey;
use crate::object::{BrokenView, ObjectView};
use crate::popup::PopupView;
use crate::screen::WindowView;
use crate::session::{SessionOutcome, SessionView};
use crate::trigger::may_fire;
use vstd::prelude::*;

verus! {

/// An object is intact when it is made.
pub proof fn lemma_fresh_is_intact(texture: Seq<char>, position: Point, fix_key: FixKey)
    ensures
        !ObjectView::fresh(texture, position, fix_key).is_broken(),
        ObjectView::fresh(texture, position, fix_key).wf(),
{
}

/// An object is intact right after a key repaired it.
pub proof fn lemma_fixed_is_intact(object: ObjectView, key: FixKey)
    requires
        object.accepts(key),
    ensures
        !object.pressed(key).is_broken(),
{
}

/// With a source that can return `sample` alone, an event fires exactly
/// when `sample` lies below its chance.
pub proof fn lemma_fixed_sample_decides(sample: u32, chance: u64, fired: bool)
    ensures
        may_fire(set![sample], chance, fired) <==> fired == (sample < chance),
{
    if fired == (sample < chance) {
        assert(set![sample].contains(sample));
    }
}

/// A broken object that is not repaired counts every frame, on itself and
/// on its countdown, whatever the samples of those frames are.
pub proof fn lemma_broken_counts_frames(object: ObjectView, state: GameState, samples: Seq<u32>)
    requires
        object.is_broken(),
    ensures
        object.ticked_through(state, samples).broken == Some(
            BrokenView {
                frames_since_broken: object.broken->Some_0.frames_since_broken + samples.len(),
                popup: PopupView {
                    frames_existed: object.broken->Some_0.popup.frames_existed + samples.len(),
                    ..object.broken->Some_0.popup
                },
            },
        ),
    decreases samples.len(),
{
    if samples.len() > 0 {
        lemma_broken_counts_frames(object, state, samples.drop_last());
    }
}

/// After an object broke, `n` frames without a repair leave the count of
/// the object and the count of its countdown at `n`.
pub proof fn lemma_frames_since_break(
    object: ObjectView,
    state: GameState,
    samples: Seq<u32>,
)
    requires
        !object.is_broken(),
    ensures
        ({
            let later = object.messed_up(state.broken_lifetime as nat).ticked_through(
                state,
                samples,
            );
            &&& later.is_broken()
            &&& later.broken->Some_0.frames_since_broken == samples.len()
            &&& later.broken->Some_0.popup.frames_existed == samples.len()
        }),
{
    lemma_broken_counts_frames(object.messed_up(state.broken_lifetime as nat), state, samples);
}

/// A countdown is not timed out on the frame that equals its lifetime, and
/// is timed out on the next.
pub proof fn lemma_timeout_boundary(popup: PopupView)
    ensures
        popup.frames_existed == popup.lifetime ==> !popup.is_timed_out(),
        popup.frames_existed == popup.lifetime + 1 ==> popup.is_timed_out(),
        popup.is_timed_out() <==> popup.frames_existed >= popup.lifetime + 1,
{
}

/// An object that broke and was not repaired is timed out exactly when more
/// frames have passed than its countdown allows.
pub proof fn lemma_timed_out_after_lifetime(
    object: ObjectView,
    state: GameState,
    samples: Seq<u32>,
)
    requires
        !object.is_broken(),
        state.broken_lifetime > 0,
    ensures
        object.messed_up(state.broken_lifetime as nat).ticked_through(
            state,
            samples,
        ).is_timed_out() <==> samples.len() > state.broken_lifetime,
{
    lemma_broken_counts_frames(object.messed_up(state.broken_lifetime as nat), state, samples);
}

/// The three cases of a key press on one object: its key while it is broken
/// repairs it and changes nothing else; its key while it is intact changes
/// nothing; another key while it is broken changes nothing.
pub proof fn lemma_press_cases(object: ObjectView, key: FixKey)
    ensures
        object.is_broken() && key == object.fix_key ==> object.accepts(key) && object.pressed(key)
            == (ObjectView { broken: None, ..object }),
        !object.is_broken() ==> !object.accepts(key) && object.pressed(key) == object,
        object.is_broken() && key != object.fix_key ==> !object.accepts(key) && object.pressed(key)
            == object,
{
}

/// While no object is broken, no key is wrong and no key changes the run.
pub proof fn lemma_no_wrong_key_while_intact(session: SessionView, key: FixKey)
    requires
        !session.any_broken(),
    ensures
        session.press_outcome(key) == SessionOutcome::Clear,
        session.pressed(key) == session,
{
    assert(session.pressed(key).objects =~= session.objects);
}

/// A key that some broken object takes is not wrong, and after the press no
/// object with that key is broken.
pub proof fn lemma_right_key_repairs(session: SessionView, key: FixKey)
    requires
        session.any_accepts(key),
    ensures
        session.press_outcome(key) == SessionOutcome::Clear,
        !session.pressed(key).any_accepts(key),
        forall|i: int|
            0 <= i < session.objects.len() && (#[trigger] session.objects[i]).fix_key == key
                ==> !session.pressed(key).objects[i].is_broken(),
{
}

/// A key that no broken object takes, pressed while some object is broken,
/// is wrong and changes nothing.
pub proof fn lemma_wrong_key_changes_nothing(session: SessionView, key: FixKey)
    requires
        session.any_broken(),
        !session.any_accepts(key),
    ensures
        session.press_outcome(key) == SessionOutcome::WrongKey(key),
        session.pressed(key) == session,
{
    assert(session.pressed(key).objects =~= session.objects);
}

/// With a source that can return `sample` alone, a frame leaves the run in
/// one state only: every broken object has aged and every intact object has
/// met `sample`.
pub proof fn lemma_fixed_sample_frame(session: SessionView, next: SessionView, sample: u32)
    ensures
        session.may_follow(next, set![sample]) <==> next == session.ticked(sample),
{
    if session.may_follow(next, set![sample]) {
        assert(next.objects =~= session.ticked(sample).objects);
    }
    if next == session.ticked(sample) {
        assert(set![sample].contains(sample));
    }
}

/// What a frame reports of a run is one outcome only.
pub proof fn lemma_one_report(session: SessionView, first: SessionOutcome, second: SessionOutcome)
    requires
        session.reports(first),
        session.reports(second),
    ensures
        first == second,
{
}

/// Once the run has ended the world is frozen: a frame changes neither the
/// objects nor the closing screen, and neither does a key.
pub proof fn lemma_paused_is_frozen(
    window: WindowView,
    next: WindowView,
    support: Set<u32>,
    keycode: Option<FixKey>,
)
    requires
        window.is_paused(),
    ensures
        window.may_follow(next, support) ==> next == window,
        window.after_key_down(keycode) == window,
{
}

/// The run ends on a key exactly when the key is wrong, and on a frame
/// exactly when an object is then timed out.
pub proof fn lemma_pause_only_on_failure(
    window: WindowView,
    next: WindowView,
    support: Set<u32>,
    key: FixKey,
)
    requires
        !window.is_paused(),
    ensures
        key != FixKey::Escape ==> (window.after_key_down(Some(key)).is_paused()
            <==> window.session.press_outcome(key) == SessionOutcome::WrongKey(key)),
        window.after_key_down(Some(FixKey::Escape)) == window,
        window.may_follow(next, support) ==> (next.is_paused() <==> !next.session.in_time()),
{
}

} // verus!
