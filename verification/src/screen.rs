//! The window: the run behind it, the screen that ends it, and what the host
//! is to draw.

use crate::config::{ConfigError, GameState, KeyPolicy};
use crate::game_object::{GameObject, GameObjectView};
use crate::geometry::Point;
use crate::keys::FixKey;
use crate::object::{FixableGameObject, ObjectView};
use crate::pause::{GameOverCause, GameOverScreen};
use crate::session::{views, GameSession, SessionView};
use crate::trigger::RandomSource;
use vstd::prelude::*;

verus! {

/// What the host is to do after a key event.
#[derive(Clone, Copy, Debug, PartialEq, Eq, Structural)]
pub enum WindowAction {
    /// Go on with the frame loop.
    Continue,
    /// End the process with success.
    Quit,
}

/// The objects as things to draw, in order.
pub open spec fn pictures(objects: Seq<ObjectView>) -> Seq<GameObjectView> {
    Seq::new(objects.len(), |i: int| GameObjectView::Fixable(objects[i]))
}

/// The countdowns of the broken objects as things to draw, in the order of
/// the objects.
pub open spec fn countdowns(objects: Seq<ObjectView>) -> Seq<GameObjectView>
    decreases objects.len(),
{
    if objects.len() == 0 {
        Seq::empty()
    } else {
        let before = countdowns(objects.drop_last());
        match objects.last().broken {
            Some(info) => before.push(GameObjectView::Popup(info.popup)),
            None => before,
        }
    }
}

/// Why `objects[i]` may not join a run that holds the objects before it, if
/// it may not.
pub open spec fn fault_at(
    state: GameState,
    policy: KeyPolicy,
    objects: Seq<ObjectView>,
    i: int,
) -> Option<ConfigError> {
    (SessionView { state, policy, objects: objects.take(i) }).component_fault(objects[i])
}

/// `objects[i]` is the first object that may not join the run.
pub open spec fn first_fault_at(
    state: GameState,
    policy: KeyPolicy,
    objects: Seq<ObjectView>,
    i: int,
) -> bool {
    &&& 0 <= i < objects.len()
    &&& fault_at(state, policy, objects, i) is Some
    &&& forall|j: int| 0 <= j < i ==> (#[trigger] fault_at(state, policy, objects, j)) is None
}

/// No object is refused.
pub open spec fn faultless(state: GameState, policy: KeyPolicy, objects: Seq<ObjectView>) -> bool {
    forall|i: int|
        0 <= i < objects.len() ==> (#[trigger] fault_at(state, policy, objects, i)) is None
}

/// What a window is: the run behind it and, once the run has ended, why.
pub struct WindowView {
    pub session: SessionView,
    pub menu: Option<GameOverCause>,
}

impl WindowView {
    /// The run is well formed, and while it goes on no object is timed out.
    pub open spec fn wf(self) -> bool {
        &&& self.session.wf()
        &&& self.menu is None ==> self.session.in_time()
    }

    pub open spec fn is_paused(self) -> bool {
        self.menu is Some
    }

    /// The window with the closing screen for `cause` over it.
    pub open spec fn paused(self, cause: GameOverCause) -> WindowView {
        WindowView { menu: Some(cause), ..self }
    }

    /// The key ends the process: it is the escape key.
    pub open spec fn quits(keycode: Option<FixKey>) -> bool {
        keycode == Some(FixKey::Escape)
    }

    /// The window after a key went down. Without a key code, on the escape
    /// key and once the run has ended, nothing changes. Else the key is
    /// offered to the run, and a wrong key ends it.
    pub open spec fn after_key_down(self, keycode: Option<FixKey>) -> WindowView {
        match keycode {
            Some(key) => if key == FixKey::Escape || self.is_paused() {
                self
            } else {
                WindowView {
                    session: self.session.pressed(key),
                    menu: GameOverCause::of(self.session.press_outcome(key)),
                }
            },
            None => self,
        }
    }

    /// `menu` is what a frame leaves over the run `session`: nothing while
    /// no object is timed out, else the closing screen for the first object
    /// that is.
    pub open spec fn frame_verdict(session: SessionView, menu: Option<GameOverCause>) -> bool {
        match menu {
            None => session.in_time(),
            Some(GameOverCause::NotInTime(key)) => exists|i: int| #[trigger]
                session.timed_out_first(i) && session.objects[i].fix_key == key,
            Some(GameOverCause::WrongKey(_)) => false,
        }
    }

    /// The window may have become `next` in one frame, with samples out of
    /// `support`. Once the run has ended the window stays as it is.
    pub open spec fn may_follow(self, next: WindowView, support: Set<u32>) -> bool {
        if self.is_paused() {
            next == self
        } else {
            &&& self.session.may_follow(next.session, support)
            &&& WindowView::frame_verdict(next.session, next.menu)
        }
    }

    /// What is to be drawn, from back to front: once the run has ended, the
    /// closing screen alone; else the objects in order and then the
    /// countdowns of the broken ones in order.
    pub open spec fn scene(self) -> Seq<GameObjectView> {
        match self.menu {
            Some(cause) => seq![GameObjectView::Overlay(cause)],
            None => pictures(self.session.objects) + countdowns(self.session.objects),
        }
    }
}

/// The models of the things, in order.
pub open spec fn scene_views(things: Seq<GameObject>) -> Seq<GameObjectView> {
    Seq::new(things.len(), |i: int| things[i]@)
}

/// The window of the game.
#[derive(Debug)]
pub struct Window {
    pub(crate) session: GameSession,
    pub(crate) menu: Option<GameOverScreen>,
}

impl Window {
    /// The model of the window.
    pub open(crate) spec fn view(&self) -> WindowView {
        WindowView {
            session: self.session@,
            menu: match self.menu {
                Some(screen) => Some(screen@),
                None => None,
            },
        }
    }

    /// The window is one that the functions below build.
    pub open(crate) spec fn wf(&self) -> bool {
        self.session.wf() && self@.wf()
    }

    /// A window over a run of `components`, in their order, if the tunables
    /// are valid and every component may join; else the first fault: that of
    /// the tunables, or that of the first component that is refused.
    pub fn new(state: GameState, policy: KeyPolicy, components: Vec<FixableGameObject>) -> (made:
        Result<Window, ConfigError>)
        requires
            forall|i: int| 0 <= i < components.len() ==> (#[trigger] components[i]).wf(),
        ensures
            match made {
                Ok(window) => {
                    &&& window.wf()
                    &&& state.wf()
                    &&& faultless(state, policy, views(components@))
                    &&& window@.menu is None
                    &&& window@.session == (SessionView {
                        state,
                        policy,
                        objects: views(components@),
                    })
                },
                Err(fault) => if state.wf() {
                    exists|i: int| #[trigger]
                        first_fault_at(state, policy, views(components@), i) && fault_at(
                            state,
                            policy,
                            views(components@),
                            i,
                        ) == Some(fault)
                } else {
                    state.fault() == Some(fault)
                },
            },
    {
        let mut window = match GameSession::new(state, policy) {
            Ok(session) => Window { session, menu: None },
            Err(fault) => {
                return Err(fault);
            },
        };
        let ghost all = views(components@);
        let count: usize = components.len();
        let mut i: usize = 0;
        while i < count
            invariant
                i <= count,
                count == components.len(),
                all == views(components@),
                state.wf(),
                window.wf(),
                window@.menu is None,
                window@.session.state == state,
                window@.session.policy == policy,
                window@.session.objects == all.take(i as int),
                forall|j: int| 0 <= j < components.len() ==> (#[trigger] components[j]).wf(),
                forall|j: int| 0 <= j < i ==> (#[trigger] fault_at(state, policy, all, j)) is None,
            decreases count - i,
        {
            match window.add_component(components[i]) {
                Ok(()) => {
                    assert(window@.session.objects =~= all.take(i + 1));
                },
                Err(fault) => {
                    assert(first_fault_at(state, policy, all, i as int));
                    return Err(fault);
                },
            }
            i += 1;
        }
        assert(all.take(count as int) =~= all);
        Ok(window)
    }

    /// Lets `child` join the run as its last object, unless the run refuses it.
    pub fn add_component(&mut self, child: FixableGameObject) -> (added: Result<(), ConfigError>)
        requires
            old(self).wf(),
            child.wf(),
        ensures
            final(self).wf(),
            final(self)@.menu == old(self)@.menu,
            match added {
                Ok(()) => old(self)@.session.component_fault(child@) is None && final(self)@.session == old(self)@.session.with(child@),
                Err(fault) => old(self)@.session.component_fault(child@) == Some(fault) && *final(self) == *old(self),
            },
    {
        self.session.add_component(child)
    }

    /// Ends the run and puts `menu` over it.
    pub fn pause(&mut self, menu: GameOverScreen)
        requires
            old(self).wf(),
        ensures
            final(self).wf(),
            final(self)@ == old(self)@.paused(menu@),
    {
        self.menu = Some(menu);
    }

    /// Whether the run has ended.
    pub fn is_paused(&self) -> (paused: bool)
        ensures
            paused == self@.is_paused(),
    {
        self.menu.is_some()
    }

    /// One frame. While the run goes on, every object is advanced, and the
    /// run ends if one of them is then timed out. Once the run has ended,
    /// nothing changes and nothing is drawn from `source`.
    pub fn update<S: RandomSource>(&mut self, source: &mut S)
        requires
            old(self).wf(),
        ensures
            final(self).wf(),
            final(source).support() == old(source).support(),
            old(self)@.may_follow(final(self)@, old(source).support()),
            old(self)@.is_paused() ==> *final(self) == *old(self) && *final(source) == *old(source),
    {
        if self.is_paused() {
            return ;
        }
        assert forall|i: int| 0 <= i < self@.session.objects.len() implies (
        #[trigger] self@.session.objects[i]).can_age() by {
            assert(!self@.session.objects[i].is_timed_out());
        }
        let outcome = self.session.advance(source);
        match GameOverCause::from_outcome(outcome) {
            Some(cause) => {
                self.menu = Some(GameOverScreen::new(cause));
            },
            None => {},
        }
    }

    /// A key went down. The escape key asks the host to quit and changes
    /// nothing; so does any key once the run has ended, without asking to
    /// quit. Else the key is offered to the run, and a wrong key ends it.
    pub fn key_down_event(&mut self, keycode: Option<FixKey>) -> (action: WindowAction)
        requires
            old(self).wf(),
        ensures
            final(self).wf(),
            final(self)@ == old(self)@.after_key_down(keycode),
            action == if WindowView::quits(keycode) {
                WindowAction::Quit
            } else {
                WindowAction::Continue
            },
    {
        match keycode {
            Some(key) => {
                if key == FixKey::Escape {
                    return WindowAction::Quit;
                }
                if self.is_paused() {
                    return WindowAction::Continue;
                }
                let ghost before = self@.session;
                let outcome = self.session.handle_key_press(key);
                assert forall|i: int| 0 <= i < self@.session.objects.len() implies !(
                #[trigger] self@.session.objects[i]).is_timed_out() by {
                    assert(!before.objects[i].is_timed_out());
                }
                match GameOverCause::from_outcome(outcome) {
                    Some(cause) => {
                        self.pause(GameOverScreen::new(cause));
                    },
                    None => {},
                }
                WindowAction::Continue
            },
            None => WindowAction::Continue,
        }
    }

    /// A key went up: nothing changes.
    pub fn key_up_event(&mut self, keycode: Option<FixKey>)
        ensures
            *final(self) == *old(self),
    {
        match keycode {
            Some(key) => {
                self.session.handle_key_release(key);
            },
            None => {},
        }
    }

    /// What is to be drawn, from back to front.
    pub fn draw(&self) -> (scene: Vec<GameObject>)
        requires
            self.wf(),
        ensures
            scene_views(scene@) == self@.scene(),
            forall|i: int| 0 <= i < scene.len() ==> (#[trigger] scene[i]).wf(),
    {
        let mut scene: Vec<GameObject> = Vec::new();
        match self.menu {
            Some(screen) => {
                scene.push(GameObject::Overlay(screen));
                assert(scene_views(scene@) =~= self@.scene());
            },
            None => {
                let ghost objects = self@.session.objects;
                let count: usize = self.session.objects.len();
                let mut i: usize = 0;
                while i < count
                    invariant
                        i <= count,
                        count == self.session.objects.len(),
                        objects == self@.session.objects,
                        self.wf(),
                        forall|j: int| 0 <= j < scene.len() ==> (#[trigger] scene[j]).wf(),
                        scene_views(scene@) == pictures(objects.take(i as int)),
                    decreases count - i,
                {
                    let ghost prior = scene@;
                    scene.push(GameObject::Fixable(self.session.objects[i]));
                    proof {
                        let shown = pictures(objects.take(i + 1));
                        assert(scene_views(prior).len() == i);
                        assert forall|j: int| 0 <= j < i implies scene_views(scene@)[j]
                            == shown[j] by {
                            assert(scene_views(prior)[j] == pictures(objects.take(i as int))[j]);
                        }
                        assert(scene_views(scene@) =~= shown);
                    }
                    i += 1;
                }
                assert(objects.take(count as int) =~= objects);
                assert(countdowns(objects.take(0)) =~= Seq::empty());
                assert(scene_views(scene@) =~= pictures(objects) + countdowns(objects.take(0)));
                let mut k: usize = 0;
                while k < count
                    invariant
                        k <= count,
                        count == self.session.objects.len(),
                        objects == self@.session.objects,
                        self.wf(),
                        forall|j: int| 0 <= j < scene.len() ==> (#[trigger] scene[j]).wf(),
                        scene_views(scene@) == pictures(objects) + countdowns(
                            objects.take(k as int),
                        ),
                    decreases count - k,
                {
                    assert(objects.take(k + 1).drop_last() =~= objects.take(k as int));
                    match self.session.objects[k].key_object() {
                        Some(popup) => {
                            let ghost prior = scene@;
                            scene.push(GameObject::Popup(popup));
                            proof {
                                let before = pictures(objects) + countdowns(objects.take(k as int));
                                let shown = pictures(objects) + countdowns(objects.take(k + 1));
                                assert(shown =~= before.push(GameObjectView::Popup(popup@)));
                                assert forall|j: int| 0 <= j < prior.len() implies scene_views(
                                    scene@,
                                )[j] == shown[j] by {
                                    assert(scene_views(prior)[j] == before[j]);
                                }
                                assert(scene_views(scene@) =~= shown);
                            }
                        },
                        None => {},
                    }
                    k += 1;
                }
                assert(objects.take(count as int) =~= objects);
            },
        }
        scene
    }

    /// The run behind the window.
    pub fn session(&self) -> (session: &GameSession)
        ensures
            session@ == self@.session,
            self.wf() ==> session.wf(),
    {
        &self.session
    }

    /// The closing screen, once the run has ended.
    pub fn menu(&self) -> (menu: Option<GameOverScreen>)
        ensures
            menu is Some == self@.is_paused(),
            menu is Some ==> Some(menu->Some_0@) == self@.menu,
    {
        self.menu
    }
}

/// The layout of the standard game: seven intact objects, each with the name
/// of its picture, its place and its key. The three drawers share a key.
pub open spec fn layout() -> Seq<ObjectView> {
    seq![
        ObjectView::fresh("/window"@, Point { x: 1165, y: 51 }, FixKey::W),
        ObjectView::fresh("/milk"@, Point { x: 1220, y: 384 }, FixKey::M),
        ObjectView::fresh("/rug"@, Point { x: 1343, y: 935 }, FixKey::R),
        ObjectView::fresh("/lamp"@, Point { x: 1478, y: 384 }, FixKey::L),
        ObjectView::fresh("/drawer"@, Point { x: 1188, y: 767 }, FixKey::D),
        ObjectView::fresh("/drawer"@, Point { x: 1188, y: 645 }, FixKey::D),
        ObjectView::fresh("/drawer"@, Point { x: 1188, y: 525 }, FixKey::D),
    ]
}

/// The objects of the standard game.
pub fn create_objects() -> (objects: [FixableGameObject; 7])
    ensures
        views(objects@) == layout(),
        forall|i: int| 0 <= i < 7 ==> (#[trigger] objects[i]).wf(),
{
    let window = FixableGameObject::new("/window", Point::new(1165, 51), FixKey::W);
    let milk = FixableGameObject::new("/milk", Point::new(1220, 384), FixKey::M);
    let lamp = FixableGameObject::new("/lamp", Point::new(1478, 384), FixKey::L);
    let drawer_1 = FixableGameObject::new("/drawer", Point::new(1188, 767), FixKey::D);
    let drawer_2 = FixableGameObject::new("/drawer", Point::new(1188, 645), FixKey::D);
    let drawer_3 = FixableGameObject::new("/drawer", Point::new(1188, 525), FixKey::D);
    let rug = FixableGameObject::new("/rug", Point::new(1343, 935), FixKey::R);
    let objects = [window, milk, rug, lamp, drawer_1, drawer_2, drawer_3];
    assert(views(objects@) =~= layout());
    objects
}

} // verus!
