//! An object of the room that breaks and is repaired with its key.

use crate::config::GameState;
use crate::geometry::{anchor, anchor_fits, footprint_anchor, footprint_fits, Point, Size};
use crate::keys::FixKey;
use crate::popup::{KeyPopup, PopupView};
use crate::text::join;
use crate::trigger::{fires, should_fire, RandomSource};
use vstd::prelude::*;

verus! {

/// What a broken object carries: the frames since it broke and its countdown.
pub struct BrokenView {
    pub frames_since_broken: nat,
    pub popup: PopupView,
}

/// What an object is: its place, its footprint, the name of its picture, the
/// key that repairs it, and what it carries when it is broken.
pub struct ObjectView {
    pub position: Point,
    pub size: Size,
    pub texture: Seq<char>,
    pub fix_key: FixKey,
    pub broken: Option<BrokenView>,
}

impl ObjectView {
    /// An intact object without a footprint.
    pub open spec fn fresh(texture: Seq<char>, position: Point, fix_key: FixKey) -> ObjectView {
        ObjectView {
            position,
            size: Size { width: 0, height: 0 },
            texture,
            fix_key,
            broken: None,
        }
    }

    /// The countdown can hang below the footprint, and a broken object counts
    /// in step with a countdown of positive lifetime that asks for its key.
    pub open spec fn wf(self) -> bool {
        &&& anchor_fits(self.position, self.size)
        &&& match self.broken {
            Some(info) => {
                &&& info.frames_since_broken == info.popup.frames_existed
                &&& info.popup.lifetime > 0
                &&& info.popup.key == self.fix_key
            },
            None => true,
        }
    }

    pub open spec fn is_broken(self) -> bool {
        self.broken is Some
    }

    /// Broken, with a countdown that has run past its lifetime.
    pub open spec fn is_timed_out(self) -> bool {
        match self.broken {
            Some(info) => info.popup.is_timed_out(),
            None => false,
        }
    }

    /// A broken object can count one more frame.
    pub open spec fn can_age(self) -> bool {
        match self.broken {
            Some(info) => info.popup.frames_existed < i32::MAX,
            None => true,
        }
    }

    /// The object as it breaks: it has counted no frame, and a fresh
    /// countdown hangs below the middle of its footprint.
    pub open spec fn messed_up(self, lifetime: nat) -> ObjectView {
        ObjectView {
            broken: Some(
                BrokenView {
                    frames_since_broken: 0,
                    popup: PopupView::fresh(
                        anchor(self.position, self.size),
                        self.fix_key,
                        lifetime,
                    ),
                },
            ),
            ..self
        }
    }

    /// A broken object one frame later.
    pub open spec fn aged(self) -> ObjectView
        recommends
            self.is_broken(),
    {
        match self.broken {
            Some(info) => ObjectView {
                broken: Some(
                    BrokenView {
                        frames_since_broken: info.frames_since_broken + 1,
                        popup: info.popup.advanced(),
                    },
                ),
                ..self
            },
            None => self,
        }
    }

    /// An intact object after the sample that was drawn for it: broken when
    /// the sample lies below the chance of breaking, else as before.
    pub open spec fn drawn(self, state: GameState, sample: u32) -> ObjectView {
        if sample < state.chance() {
            self.messed_up(state.broken_lifetime as nat)
        } else {
            self
        }
    }

    /// The object one frame later, given the sample of that frame. A broken
    /// object ages whatever the sample is.
    pub open spec fn ticked(self, state: GameState, sample: u32) -> ObjectView {
        if self.is_broken() {
            self.aged()
        } else {
            self.drawn(state, sample)
        }
    }

    /// The object after one frame for each of the samples, in their order.
    pub open spec fn ticked_through(self, state: GameState, samples: Seq<u32>) -> ObjectView
        decreases samples.len(),
    {
        if samples.len() == 0 {
            self
        } else {
            self.ticked_through(state, samples.drop_last()).ticked(state, samples.last())
        }
    }

    /// The object is broken and `key` is its key.
    pub open spec fn accepts(self, key: FixKey) -> bool {
        self.is_broken() && key == self.fix_key
    }

    /// The object without what it carried while broken.
    pub open spec fn fixed(self) -> ObjectView {
        ObjectView { broken: None, ..self }
    }

    /// The object after `key` was pressed: repaired when it accepts the key,
    /// else as before.
    pub open spec fn pressed(self, key: FixKey) -> ObjectView {
        if self.accepts(key) {
            self.fixed()
        } else {
            self
        }
    }

    /// Name of the picture file that shows the object in its present state.
    pub open spec fn texture_path(self) -> Seq<char> {
        if self.is_broken() {
            self.texture + "_broken.png"@
        } else {
            self.texture + ".png"@
        }
    }
}

/// What a broken object carries.
#[derive(Clone, Copy, Debug)]
pub struct BrokenInfo {
    pub(crate) frames_since_broken: i32,
    pub(crate) popup: KeyPopup,
}

/// An object of the room.
#[derive(Clone, Copy, Debug)]
pub struct FixableGameObject {
    pub(crate) position: Point,
    pub(crate) size: Size,
    pub(crate) texture: &'static str,
    pub(crate) fix_key: FixKey,
    pub(crate) broken: Option<BrokenInfo>,
}

impl FixableGameObject {
    /// The model of the object.
    pub open(crate) spec fn view(&self) -> ObjectView {
        ObjectView {
            position: self.position,
            size: self.size,
            texture: self.texture@,
            fix_key: self.fix_key,
            broken: match self.broken {
                Some(info) => Some(
                    BrokenView {
                        frames_since_broken: info.frames_since_broken as nat,
                        popup: info.popup@,
                    },
                ),
                None => None,
            },
        }
    }

    /// The object is one that the functions below build: its model is well
    /// formed and its counters are not negative.
    pub open(crate) spec fn wf(&self) -> bool {
        &&& self@.wf()
        &&& match self.broken {
            Some(info) => 0 <= info.frames_since_broken && info.popup.wf(),
            None => true,
        }
    }

    /// An intact object at `position`, shown by the picture named `texture`
    /// and repaired with `fix_key`. It has no footprint yet.
    pub fn new(texture: &'static str, position: Point, fix_key: FixKey) -> (object:
        FixableGameObject)
        ensures
            object.wf(),
            object@ == ObjectView::fresh(texture@, position, fix_key),
    {
        FixableGameObject { position, size: Size::zero(), texture, fix_key, broken: None }
    }

    /// Gives the object its footprint, unless the countdown could then not
    /// hang below it. Says whether the footprint was taken.
    pub fn set_size(&mut self, size: Size) -> (taken: bool)
        requires
            old(self).wf(),
        ensures
            final(self).wf(),
            taken == anchor_fits(old(self)@.position, size),
            taken ==> final(self)@ == (ObjectView { size, ..old(self)@ }),
            !taken ==> final(self)@ == old(self)@,
    {
        if footprint_fits(self.position, size) {
            self.size = size;
            true
        } else {
            false
        }
    }

    /// Whether the object is broken and waits for its key.
    pub fn is_broken(&self) -> (broken: bool)
        ensures
            broken == self@.is_broken(),
    {
        self.broken.is_some()
    }

    /// Whether the object is broken and its countdown has run past its lifetime.
    pub fn is_timed_out(&self) -> (timed_out: bool)
        requires
            self.wf(),
        ensures
            timed_out == self@.is_timed_out(),
    {
        match self.broken {
            Some(info) => info.popup.is_timed_out(),
            None => false,
        }
    }

    /// Breaks the object and hangs a fresh countdown of the run's lifetime
    /// below it. An object that is already broken stays as it is.
    pub fn mess_up(&mut self, state: &GameState)
        requires
            old(self).wf(),
            state.broken_lifetime > 0,
        ensures
            final(self).wf(),
            old(self)@.is_broken() ==> final(self)@ == old(self)@,
            !old(self)@.is_broken() ==> final(self)@ == old(self)@.messed_up(
                state.broken_lifetime as nat,
            ),
    {
        if self.broken.is_none() {
            let center = footprint_anchor(self.position, self.size);
            let popup = KeyPopup::new(center, self.fix_key, state.broken_lifetime);
            self.broken = Some(BrokenInfo { frames_since_broken: 0, popup });
        }
    }

    /// Whether a broken object can count one more frame. An intact one always can.
    pub fn can_age(&self) -> (able: bool)
        requires
            self.wf(),
        ensures
            able == self@.can_age(),
    {
        match self.broken {
            Some(info) => info.popup.frames_existed() < i32::MAX,
            None => true,
        }
    }

    /// Counts one more frame on a broken object and on its countdown.
    fn age(&mut self, state: &GameState)
        requires
            old(self).wf(),
            old(self)@.is_broken(),
            old(self)@.can_age(),
        ensures
            final(self).wf(),
            final(self)@ == old(self)@.aged(),
    {
        match self.broken {
            Some(info) => {
                let mut popup = info.popup;
                popup.update(state);
                self.broken = Some(
                    BrokenInfo { frames_since_broken: info.frames_since_broken + 1, popup },
                );
            },
            None => {},
        }
    }

    /// Advances the object by one frame, given the sample of that frame. A
    /// broken object counts the frame; an intact one breaks when the sample
    /// lies below the chance of breaking.
    pub fn update_with(&mut self, state: &GameState, sample: u32)
        requires
            old(self).wf(),
            old(self)@.can_age(),
            state.broken_lifetime > 0,
        ensures
            final(self).wf(),
            final(self)@ == old(self)@.ticked(*state, sample),
    {
        if self.is_broken() {
            self.age(state);
        } else if fires(state.chance_of_breaking(), sample) {
            self.mess_up(state);
        }
    }

    /// Advances the object by one frame. A broken object counts the frame and
    /// draws nothing; an intact one draws one sample from `source` and breaks
    /// when the sample lies below the chance of breaking.
    pub fn update<S: RandomSource>(&mut self, state: &GameState, source: &mut S)
        requires
            old(self).wf(),
            old(self)@.can_age(),
            state.broken_lifetime > 0,
        ensures
            final(self).wf(),
            final(source).support() == old(source).support(),
            old(self)@.is_broken() ==> final(self)@ == old(self)@.aged(),
            old(self)@.is_broken() ==> *final(source) == *old(source),
            !old(self)@.is_broken() ==> exists|sample: u32| #[trigger]
                old(source).support().contains(sample) && final(self)@ == old(self)@.drawn(
                    *state,
                    sample,
                ),
    {
        if self.is_broken() {
            self.age(state);
        } else if should_fire(state.chance_of_breaking(), source) {
            self.mess_up(state);
        }
    }

    /// Repairs the object if it is broken and `code` is its key. Says whether
    /// it did; if not, the object stays as it is.
    pub fn on_key_pressed(&mut self, code: &FixKey) -> (fixed: bool)
        requires
            old(self).wf(),
        ensures
            final(self).wf(),
            fixed == old(self)@.accepts(*code),
            final(self)@ == old(self)@.pressed(*code),
    {
        if *code == self.fix_key && self.is_broken() {
            self.broken = None;
            return true;
        }
        false
    }

    /// A released key changes nothing.
    pub fn on_key_released(&mut self, _code: &FixKey)
        ensures
            *final(self) == *old(self),
    {
    }

    /// Name of the picture file that shows the object in its present state.
    pub fn texture_path(&self) -> (path: String)
        ensures
            path@ == self@.texture_path(),
    {
        if self.is_broken() {
            join(self.texture, "_broken.png")
        } else {
            join(self.texture, ".png")
        }
    }

    pub fn position(&self) -> (position: Point)
        ensures
            position == self@.position,
    {
        self.position
    }

    pub fn size(&self) -> (size: Size)
        ensures
            size == self@.size,
    {
        self.size
    }

    pub fn texture(&self) -> (texture: &'static str)
        ensures
            texture@ == self@.texture,
    {
        self.texture
    }

    pub fn fix_key(&self) -> (key: FixKey)
        ensures
            key == self@.fix_key,
    {
        self.fix_key
    }

    /// Frames since the object broke, if it is broken.
    pub fn frames_since_broken(&self) -> (frames: Option<i32>)
        requires
            self.wf(),
        ensures
            frames is Some == self@.is_broken(),
            frames is Some ==> frames->Some_0 == self@.broken->Some_0.frames_since_broken,
    {
        match self.broken {
            Some(info) => Some(info.frames_since_broken),
            None => None,
        }
    }

    /// The countdown of the object, if it is broken.
    pub fn key_object(&self) -> (popup: Option<KeyPopup>)
        requires
            self.wf(),
        ensures
            popup is Some == self@.is_broken(),
            popup is Some ==> popup->Some_0.wf() && popup->Some_0@ == self@.broken->Some_0.popup,
    {
        match self.broken {
            Some(info) => Some(info.popup),
            None => None,
        }
    }
}

} // verus!
