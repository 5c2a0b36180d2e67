//! The countdown that hangs below a broken object.

use crate::config::GameState;
use crate::geometry::Point;
use crate::keys::FixKey;
use vstd::prelude::*;

verus! {

/// What a countdown is: where it hangs, the key it asks for, the frames it
/// has been shown and the frames it allows.
pub struct PopupView {
    pub center: Point,
    pub key: FixKey,
    pub frames_existed: nat,
    pub lifetime: nat,
}

impl PopupView {
    /// A countdown that has just appeared.
    pub open spec fn fresh(center: Point, key: FixKey, lifetime: nat) -> PopupView {
        PopupView { center, key, frames_existed: 0, lifetime }
    }

    /// The countdown one frame later.
    pub open spec fn advanced(self) -> PopupView {
        PopupView { frames_existed: self.frames_existed + 1, ..self }
    }

    /// The countdown has run past its lifetime. At the lifetime itself it has not.
    pub open spec fn is_timed_out(self) -> bool {
        self.frames_existed > self.lifetime
    }

    /// Thousandths of the lifetime that have passed, rounded down and not capped.
    pub open spec fn progress_per_mille(self) -> nat
        recommends
            self.lifetime > 0,
    {
        self.frames_existed * 1000 / self.lifetime
    }
}

/// The countdown of one broken object.
#[derive(Clone, Copy, Debug)]
pub struct KeyPopup {
    pub(crate) center: Point,
    pub(crate) key: FixKey,
    pub(crate) frames_existed: i32,
    pub(crate) lifetime: i32,
}

impl KeyPopup {
    /// The model of the countdown.
    pub open(crate) spec fn view(&self) -> PopupView {
        PopupView {
            center: self.center,
            key: self.key,
            frames_existed: self.frames_existed as nat,
            lifetime: self.lifetime as nat,
        }
    }

    /// The counters are those of a countdown: none is negative and the
    /// lifetime is positive.
    pub open(crate) spec fn wf(&self) -> bool {
        0 <= self.frames_existed && 0 < self.lifetime
    }

    /// A countdown at `center` that asks for `key` and allows `lifetime` frames.
    pub fn new(center: Point, key: FixKey, lifetime: i32) -> (popup: KeyPopup)
        requires
            lifetime > 0,
        ensures
            popup.wf(),
            popup@ == PopupView::fresh(center, key, lifetime as nat),
    {
        KeyPopup { center, key, frames_existed: 0, lifetime }
    }

    /// Name of the picture of a key cap.
    pub fn texture() -> (name: &'static str)
        ensures
            name@ == "/key.png"@,
    {
        "/key.png"
    }

    /// Counts one more frame.
    pub fn update(&mut self, _state: &GameState)
        requires
            old(self).wf(),
            old(self)@.frames_existed < i32::MAX,
        ensures
            final(self).wf(),
            final(self)@ == old(self)@.advanced(),
    {
        self.frames_existed = self.frames_existed + 1;
    }

    /// Whether the countdown has run past its lifetime.
    pub fn is_timed_out(&self) -> (timed_out: bool)
        requires
            self.wf(),
        ensures
            timed_out == self@.is_timed_out(),
    {
        self.frames_existed > self.lifetime
    }

    /// Thousandths of the lifetime that have passed, rounded down and not capped.
    pub fn progress_per_mille(&self) -> (progress: u64)
        requires
            self.wf(),
        ensures
            progress == self@.progress_per_mille(),
    {
        self.frames_existed as u64 * 1000 / self.lifetime as u64
    }

    /// The text on the key cap.
    pub fn text(&self) -> (text: &'static str)
        ensures
            text@ == self@.key.label(),
    {
        self.key.name()
    }

    pub fn center(&self) -> (center: Point)
        ensures
            center == self@.center,
    {
        self.center
    }

    pub fn key(&self) -> (key: FixKey)
        ensures
            key == self@.key,
    {
        self.key
    }

    pub fn frames_existed(&self) -> (frames: i32)
        requires
            self.wf(),
        ensures
            frames == self@.frames_existed,
    {
        self.frames_existed
    }

    pub fn lifetime(&self) -> (lifetime: i32)
        requires
            self.wf(),
        ensures
            lifetime == self@.lifetime,
    {
        self.lifetime
    }
}

} // verus!
