//! A run of the game: the objects of the room in their fixed order, advanced
//! frame by frame and answered key by key.

use crate::config::{ConfigError, GameState, KeyPolicy};
use crate::keys::FixKey;
use crate::object::{FixableGameObject, ObjectView};
use crate::trigger::RandomSource;
use vstd::prelude::*;

verus! {

/// What a frame or a key press means for the run.
#[derive(Clone, Copy, Debug, PartialEq, Eq, Structural)]
pub enum SessionOutcome {
    /// The run goes on.
    Clear,
    /// The key was pressed while objects were broken and none of them took it.
    WrongKey(FixKey),
    /// The countdown of the object with this key has run out.
    Timeout(FixKey),
}

/// What a run is: its tunables, its rule on keys, and its objects in order.
pub struct SessionView {
    pub state: GameState,
    pub policy: KeyPolicy,
    pub objects: Seq<ObjectView>,
}

impl SessionView {
    /// A run without objects.
    pub open spec fn empty(state: GameState, policy: KeyPolicy) -> SessionView {
        SessionView { state, policy, objects: Seq::empty() }
    }

    /// Under `KeyPolicy::Distinct` no two objects have the same key.
    pub open spec fn keys_allowed(self) -> bool {
        self.policy == KeyPolicy::Distinct ==> forall|i: int, j: int|
            0 <= i < j < self.objects.len() ==> self.objects[i].fix_key != self.objects[j].fix_key
    }

    /// The tunables are valid, the keys follow the rule, and every object is
    /// well formed, with the run's lifetime on its countdown if it is broken.
    pub open spec fn wf(self) -> bool {
        &&& self.state.wf()
        &&& self.keys_allowed()
        &&& forall|i: int|
            0 <= i < self.objects.len() ==> {
                &&& (#[trigger] self.objects[i]).wf()
                &&& self.objects[i].is_broken() ==> self.objects[i].broken->Some_0.popup.lifetime
                    == self.state.broken_lifetime
            }
    }

    /// Every broken object can count one more frame.
    pub open spec fn can_advance(self) -> bool {
        forall|i: int| 0 <= i < self.objects.len() ==> (#[trigger] self.objects[i]).can_age()
    }

    /// Some object has the key `key`.
    pub open spec fn has_key(self, key: FixKey) -> bool {
        exists|i: int| 0 <= i < self.objects.len() && (#[trigger] self.objects[i]).fix_key == key
    }

    /// Why `child` may not join the run, if it may not.
    pub open spec fn component_fault(self, child: ObjectView) -> Option<ConfigError> {
        if child.is_broken() {
            Some(ConfigError::BrokenAtStart)
        } else if self.policy == KeyPolicy::Distinct && self.has_key(child.fix_key) {
            Some(ConfigError::DuplicateKey(child.fix_key))
        } else {
            None
        }
    }

    /// The run with `child` as its last object.
    pub open spec fn with(self, child: ObjectView) -> SessionView {
        SessionView { objects: self.objects.push(child), ..self }
    }

    /// The object at `i` may have become `next` in one frame: a broken one
    /// has aged; an intact one has met a sample out of `support`.
    pub open spec fn may_tick(self, i: int, next: ObjectView, support: Set<u32>) -> bool {
        if self.objects[i].is_broken() {
            next == self.objects[i].aged()
        } else {
            exists|sample: u32| #[trigger]
                support.contains(sample) && next == self.objects[i].drawn(self.state, sample)
        }
    }

    /// The run may have become `next` in one frame, with samples out of `support`.
    pub open spec fn may_follow(self, next: SessionView, support: Set<u32>) -> bool {
        &&& next.state == self.state
        &&& next.policy == self.policy
        &&& next.objects.len() == self.objects.len()
        &&& forall|i: int|
            0 <= i < self.objects.len() ==> self.may_tick(i, #[trigger] next.objects[i], support)
    }

    /// The run one frame later, where every intact object met `sample`.
    pub open spec fn ticked(self, sample: u32) -> SessionView {
        SessionView {
            objects: Seq::new(
                self.objects.len(),
                |i: int| self.objects[i].ticked(self.state, sample),
            ),
            ..self
        }
    }

    /// The object at `i` is timed out and no object before it is.
    pub open spec fn timed_out_first(self, i: int) -> bool {
        &&& 0 <= i < self.objects.len()
        &&& self.objects[i].is_timed_out()
        &&& forall|j: int| 0 <= j < i ==> !(#[trigger] self.objects[j]).is_timed_out()
    }

    /// No object is timed out.
    pub open spec fn in_time(self) -> bool {
        forall|i: int| 0 <= i < self.objects.len() ==> !(#[trigger] self.objects[i]).is_timed_out()
    }

    /// `outcome` is what a frame reports of the run: the key of the first
    /// object that is timed out, or that none is.
    pub open spec fn reports(self, outcome: SessionOutcome) -> bool {
        match outcome {
            SessionOutcome::Clear => self.in_time(),
            SessionOutcome::Timeout(key) => exists|i: int| #[trigger]
                self.timed_out_first(i) && self.objects[i].fix_key == key,
            SessionOutcome::WrongKey(_) => false,
        }
    }

    /// Some object is broken.
    pub open spec fn any_broken(self) -> bool {
        exists|i: int| 0 <= i < self.objects.len() && (#[trigger] self.objects[i]).is_broken()
    }

    /// Some broken object has the key `key`.
    pub open spec fn any_accepts(self, key: FixKey) -> bool {
        exists|i: int| 0 <= i < self.objects.len() && (#[trigger] self.objects[i]).accepts(key)
    }

    /// The run after `key` was pressed: every broken object with that key is repaired.
    pub open spec fn pressed(self, key: FixKey) -> SessionView {
        SessionView {
            objects: Seq::new(self.objects.len(), |i: int| self.objects[i].pressed(key)),
            ..self
        }
    }

    /// What a press of `key` means: it is wrong when objects are broken and
    /// none of them has that key.
    pub open spec fn press_outcome(self, key: FixKey) -> SessionOutcome {
        if self.any_broken() && !self.any_accepts(key) {
            SessionOutcome::WrongKey(key)
        } else {
            SessionOutcome::Clear
        }
    }
}

/// The models of the objects, in order.
pub open spec fn views(objects: Seq<FixableGameObject>) -> Seq<ObjectView> {
    Seq::new(objects.len(), |i: int| objects[i]@)
}

/// A run of the game.
#[derive(Debug)]
pub struct GameSession {
    pub(crate) state: GameState,
    pub(crate) policy: KeyPolicy,
    pub(crate) objects: Vec<FixableGameObject>,
}

impl GameSession {
    /// The model of the run.
    pub open(crate) spec fn view(&self) -> SessionView {
        SessionView { state: self.state, policy: self.policy, objects: views(self.objects@) }
    }

    /// The run is one that the functions below build.
    pub open(crate) spec fn wf(&self) -> bool {
        &&& self@.wf()
        &&& forall|i: int| 0 <= i < self.objects.len() ==> (#[trigger] self.objects[i]).wf()
    }

    /// A run without objects, if the tunables are valid; else their fault.
    pub fn new(state: GameState, policy: KeyPolicy) -> (made: Result<GameSession, ConfigError>)
        ensures
            match made {
                Ok(session) => state.wf() && session.wf() && session@ == SessionView::empty(
                    state,
                    policy,
                ),
                Err(fault) => state.fault() == Some(fault),
            },
    {
        match state.validate() {
            Ok(()) => {
                let session = GameSession { state, policy, objects: Vec::new() };
                assert(session@.objects =~= Seq::empty());
                Ok(session)
            },
            Err(fault) => Err(fault),
        }
    }

    /// Whether some object of the run has the key `key`.
    pub fn has_key(&self, key: FixKey) -> (found: bool)
        ensures
            found == self@.has_key(key),
    {
        let mut i: usize = 0;
        while i < self.objects.len()
            invariant
                i <= self.objects.len(),
                forall|j: int| 0 <= j < i ==> (#[trigger] self@.objects[j]).fix_key != key,
            decreases self.objects.len() - i,
        {
            if self.objects[i].fix_key() == key {
                assert(self@.objects[i as int].fix_key == key);
                return true;
            }
            i += 1;
        }
        false
    }

    /// Lets `child` join the run as its last object, unless it is broken or,
    /// under `KeyPolicy::Distinct`, its key is taken. A refused child leaves
    /// the run as it was.
    pub fn add_component(&mut self, child: FixableGameObject) -> (added: Result<(), ConfigError>)
        requires
            old(self).wf(),
            child.wf(),
        ensures
            final(self).wf(),
            match added {
                Ok(()) => old(self)@.component_fault(child@) is None && final(self)@ == old(self)@.with(child@),
                Err(fault) => old(self)@.component_fault(child@) == Some(fault) && *final(self)
                    == *old(self),
            },
    {
        if child.is_broken() {
            return Err(ConfigError::BrokenAtStart);
        }
        let distinct = match self.policy {
            KeyPolicy::Distinct => true,
            KeyPolicy::Shared => false,
        };
        if distinct && self.has_key(child.fix_key()) {
            return Err(ConfigError::DuplicateKey(child.fix_key()));
        }
        self.objects.push(child);
        assert(self@.objects =~= old(self)@.with(child@).objects);
        Ok(())
    }

    /// Whether every broken object can count one more frame, so that the run
    /// can be advanced.
    pub fn can_advance(&self) -> (able: bool)
        requires
            self.wf(),
        ensures
            able == self@.can_advance(),
    {
        let mut i: usize = 0;
        while i < self.objects.len()
            invariant
                i <= self.objects.len(),
                self.wf(),
                forall|j: int| 0 <= j < i ==> (#[trigger] self@.objects[j]).can_age(),
            decreases self.objects.len() - i,
        {
            if !self.objects[i].can_age() {
                assert(!self@.objects[i as int].can_age());
                return false;
            }
            i += 1;
        }
        true
    }

    /// Advances every object by one frame, in order, and reports the first
    /// object that is then timed out. The timed-out object stays broken.
    pub fn advance<S: RandomSource>(&mut self, source: &mut S) -> (outcome: SessionOutcome)
        requires
            old(self).wf(),
            old(self)@.can_advance(),
        ensures
            final(self).wf(),
            final(source).support() == old(source).support(),
            old(self)@.may_follow(final(self)@, old(source).support()),
            final(self)@.reports(outcome),
    {
        let ghost start = self@;
        let ghost support = source.support();
        let count: usize = self.objects.len();
        let mut i: usize = 0;
        while i < count
            invariant
                i <= count,
                count == self.objects.len(),
                count == start.objects.len(),
                self.state == start.state,
                self.policy == start.policy,
                start.wf(),
                start.can_advance(),
                source.support() == support,
                forall|j: int| 0 <= j < count ==> (#[trigger] self.objects[j]).wf(),
                forall|j: int| 0 <= j < i ==> start.may_tick(j, #[trigger] self@.objects[j], support),
                forall|j: int| 0 <= j < count ==> (#[trigger] self@.objects[j]).fix_key == start.objects[j].fix_key,
                forall|j: int|
                    0 <= j < count && (#[trigger] self@.objects[j]).is_broken()
                        ==> self@.objects[j].broken->Some_0.popup.lifetime
                        == start.state.broken_lifetime,
                forall|j: int| i <= j < count ==> #[trigger] self@.objects[j] == start.objects[j],
            decreases count - i,
        {
            let ghost before = self@;
            let mut object = self.objects[i];
            assert(self@.objects[i as int] == object@);
            object.update(&self.state, source);
            self.objects.set(i, object);
            proof {
                assert forall|j: int| 0 <= j < count implies #[trigger] self@.objects[j] == (if j
                    == i {
                    object@
                } else {
                    before.objects[j]
                }) by {}
            }
            i += 1;
        }
        let mut k: usize = 0;
        while k < count
            invariant
                k <= count,
                count == self.objects.len(),
                self.wf(),
                source.support() == support,
                support == old(source).support(),
                start == old(self)@,
                start.may_follow(self@, support),
                forall|j: int| 0 <= j < k ==> !(#[trigger] self@.objects[j]).is_timed_out(),
            decreases count - k,
        {
            if self.objects[k].is_timed_out() {
                assert(self@.timed_out_first(k as int));
                return SessionOutcome::Timeout(self.objects[k].fix_key());
            }
            k += 1;
        }
        SessionOutcome::Clear
    }

    /// Offers the key to every object. Every broken object with that key is
    /// repaired. The press is wrong when objects are broken and none of them
    /// has that key; while nothing is broken, no key is wrong.
    pub fn handle_key_press(&mut self, key: FixKey) -> (outcome: SessionOutcome)
        requires
            old(self).wf(),
        ensures
            final(self).wf(),
            final(self)@ == old(self)@.pressed(key),
            outcome == old(self)@.press_outcome(key),
    {
        let ghost start = self@;
        let count: usize = self.objects.len();
        let mut fixed_something = false;
        let mut found_broken = false;
        let mut i: usize = 0;
        while i < count
            invariant
                i <= count,
                count == self.objects.len(),
                count == start.objects.len(),
                self.state == start.state,
                self.policy == start.policy,
                start.wf(),
                forall|j: int| 0 <= j < count ==> (#[trigger] self.objects[j]).wf(),
                forall|j: int| 0 <= j < i ==> #[trigger] self@.objects[j] == start.objects[j].pressed(key),
                forall|j: int| i <= j < count ==> #[trigger] self@.objects[j] == start.objects[j],
                fixed_something == exists|j: int| 0 <= j < i && (#[trigger] start.objects[j]).accepts(key),
                found_broken == exists|j: int| 0 <= j < i && (#[trigger] start.objects[j]).is_broken(),
            decreases count - i,
        {
            let ghost before = self@;
            let mut object = self.objects[i];
            assert(self@.objects[i as int] == object@);
            if object.is_broken() {
                found_broken = true;
            }
            if object.on_key_pressed(&key) {
                fixed_something = true;
            }
            self.objects.set(i, object);
            proof {
                assert forall|j: int| 0 <= j < count implies #[trigger] self@.objects[j] == (if j
                    == i {
                    object@
                } else {
                    before.objects[j]
                }) by {}
            }
            i += 1;
        }
        assert(self@.objects =~= start.pressed(key).objects);
        if found_broken && !fixed_something {
            SessionOutcome::WrongKey(key)
        } else {
            SessionOutcome::Clear
        }
    }

    /// A released key changes nothing.
    pub fn handle_key_release(&mut self, _key: FixKey)
        ensures
            *final(self) == *old(self),
    {
    }

    /// The tunables of the run.
    pub fn state(&self) -> (state: GameState)
        ensures
            state == self@.state,
    {
        self.state
    }

    /// The rule on keys of the run.
    pub fn policy(&self) -> (policy: KeyPolicy)
        ensures
            policy == self@.policy,
    {
        self.policy
    }

    /// The number of objects.
    pub fn len(&self) -> (count: usize)
        ensures
            count == self@.objects.len(),
    {
        self.objects.len()
    }

    /// The object at `index`, if there is one.
    pub fn component(&self, index: usize) -> (found: Option<FixableGameObject>)
        requires
            self.wf(),
        ensures
            found is Some == (index < self@.objects.len()),
            found is Some ==> found->Some_0.wf() && found->Some_0@ == self@.objects[index as int],
    {
        if index < self.objects.len() {
            Some(self.objects[index])
        } else {
            None
        }
    }
}

} // verus!
