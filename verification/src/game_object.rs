//! The kinds of thing that the game shows, as one closed type.

use crate::config::GameState;
use crate::keys::FixKey;
use crate::object::{FixableGameObject, ObjectView};
use crate::pause::{GameOverCause, GameOverScreen};
use crate::popup::{KeyPopup, PopupView};
use crate::trigger::RandomSource;
use vstd::prelude::*;

verus! {

/// What a thing on the screen is.
pub enum GameObjectView {
    Fixable(ObjectView),
    Popup(PopupView),
    Overlay(GameOverCause),
}

impl GameObjectView {
    /// The thing can be advanced by one frame without a counter leaving its range.
    pub open spec fn can_update(self) -> bool {
        match self {
            GameObjectView::Fixable(object) => object.can_age(),
            GameObjectView::Popup(popup) => popup.frames_existed < i32::MAX,
            GameObjectView::Overlay(_) => true,
        }
    }

    /// The thing after `key` was pressed. Only an object of the room reacts.
    pub open spec fn pressed(self, key: FixKey) -> GameObjectView {
        match self {
            GameObjectView::Fixable(object) => GameObjectView::Fixable(object.pressed(key)),
            _ => self,
        }
    }

    /// The thing takes the key: it is a broken object of the room with that key.
    pub open spec fn accepts(self, key: FixKey) -> bool {
        match self {
            GameObjectView::Fixable(object) => object.accepts(key),
            _ => false,
        }
    }

    /// The thing may have become `next` in one frame, with a sample out of
    /// `support`: an object of the room ages or meets a sample, a countdown
    /// counts the frame, the closing screen stays.
    pub open spec fn may_tick(self, state: GameState, next: GameObjectView, support: Set<u32>) -> bool {
        match self {
            GameObjectView::Fixable(object) => {
                if object.is_broken() {
                    next == GameObjectView::Fixable(object.aged())
                } else {
                    exists|sample: u32| #[trigger]
                        support.contains(sample) && next == GameObjectView::Fixable(
                            object.drawn(state, sample),
                        )
                }
            },
            GameObjectView::Popup(popup) => next == GameObjectView::Popup(popup.advanced()),
            GameObjectView::Overlay(_) => next == self,
        }
    }
}

/// A thing on the screen: an object of the room, a countdown, or the screen
/// that ends the run.
#[derive(Clone, Copy, Debug)]
pub enum GameObject {
    Fixable(FixableGameObject),
    Popup(KeyPopup),
    Overlay(GameOverScreen),
}

impl GameObject {
    /// The model of the thing.
    pub open(crate) spec fn view(&self) -> GameObjectView {
        match self {
            GameObject::Fixable(object) => GameObjectView::Fixable(object@),
            GameObject::Popup(popup) => GameObjectView::Popup(popup@),
            GameObject::Overlay(screen) => GameObjectView::Overlay(screen@),
        }
    }

    /// The thing inside is one that its own functions build.
    pub open(crate) spec fn wf(&self) -> bool {
        match self {
            GameObject::Fixable(object) => object.wf(),
            GameObject::Popup(popup) => popup.wf(),
            GameObject::Overlay(_) => true,
        }
    }

    /// Advances the thing by one frame.
    pub fn update<S: RandomSource>(&mut self, state: &GameState, source: &mut S)
        requires
            old(self).wf(),
            old(self)@.can_update(),
            state.broken_lifetime > 0,
        ensures
            final(self).wf(),
            final(source).support() == old(source).support(),
            old(self)@.may_tick(*state, final(self)@, old(source).support()),
    {
        match self {
            GameObject::Fixable(object) => {
                let mut next = *object;
                next.update(state, source);
                *self = GameObject::Fixable(next);
            },
            GameObject::Popup(popup) => {
                let mut next = *popup;
                next.update(state);
                *self = GameObject::Popup(next);
            },
            GameObject::Overlay(_) => {},
        }
    }

    /// Offers a pressed key to the thing and says whether it took it.
    pub fn on_key_pressed(&mut self, code: &FixKey) -> (fixed: bool)
        requires
            old(self).wf(),
        ensures
            final(self).wf(),
            fixed == old(self)@.accepts(*code),
            final(self)@ == old(self)@.pressed(*code),
    {
        match self {
            GameObject::Fixable(object) => {
                let mut next = *object;
                let fixed = next.on_key_pressed(code);
                *self = GameObject::Fixable(next);
                fixed
            },
            _ => false,
        }
    }

    /// A released key changes nothing.
    pub fn on_key_released(&mut self, _code: &FixKey)
        ensures
            *final(self) == *old(self),
    {
    }
}

} // verus!
