//! The tunables of a run and the faults a configuration can have.

use crate::keys::FixKey;
use crate::trigger::SAMPLE_SPACE;
use vstd::prelude::*;

verus! {

/// Chance per frame, in parts of `SAMPLE_SPACE`, that an intact object breaks,
/// for each frame of countdown it is given.
pub const BREAK_SCALE: u32 = 1;

/// The countdown, in frames, of the standard game.
pub const BROKEN_LIFETIME: i32 = 120;

/// The tunables of a run.
#[derive(Clone, Copy, Debug, PartialEq, Eq, Structural)]
pub struct GameState {
    /// Frames a broken object may stay broken before the run is lost.
    pub broken_lifetime: i32,
}

/// Whether two objects of a run may share a key.
#[derive(Clone, Copy, Debug, PartialEq, Eq, Structural)]
pub enum KeyPolicy {
    /// Every object has a key of its own.
    Distinct,
    /// Objects may share a key; a press repairs every broken one among them.
    Shared,
}

/// Why a configuration is refused.
#[derive(Clone, Copy, Debug, PartialEq, Eq, Structural)]
pub enum ConfigError {
    /// The countdown is zero or negative.
    NonPositiveLifetime,
    /// The countdown is so long that an intact object would break on every frame.
    ChanceOutOfRange,
    /// An object is already broken when it joins the run.
    BrokenAtStart,
    /// The key belongs to an earlier object, under `KeyPolicy::Distinct`.
    DuplicateKey(FixKey),
}

impl GameState {
    /// Chance per frame, in parts of `SAMPLE_SPACE`, that an intact object breaks.
    pub open spec fn chance(&self) -> int {
        if self.broken_lifetime > 0 {
            self.broken_lifetime * BREAK_SCALE
        } else {
            0
        }
    }

    /// The countdown is positive and the chance of breaking is below certainty.
    pub open spec fn wf(&self) -> bool {
        0 < self.broken_lifetime && self.chance() < SAMPLE_SPACE
    }

    /// The fault of these tunables, if they have one.
    pub open spec fn fault(&self) -> Option<ConfigError> {
        if self.broken_lifetime <= 0 {
            Some(ConfigError::NonPositiveLifetime)
        } else if self.chance() >= SAMPLE_SPACE {
            Some(ConfigError::ChanceOutOfRange)
        } else {
            None
        }
    }

    /// The tunables of the standard game.
    pub fn standard() -> (state: GameState)
        ensures
            state.broken_lifetime == BROKEN_LIFETIME,
            state.wf(),
    {
        GameState { broken_lifetime: BROKEN_LIFETIME }
    }

    /// Chance per frame, in parts of `SAMPLE_SPACE`, that an intact object breaks.
    pub fn chance_of_breaking(&self) -> (chance: u64)
        ensures
            chance == self.chance(),
    {
        if self.broken_lifetime > 0 {
            self.broken_lifetime as u64 * BREAK_SCALE as u64
        } else {
            0
        }
    }

    /// Accepts the tunables or names their fault.
    pub fn validate(&self) -> (checked: Result<(), ConfigError>)
        ensures
            checked is Ok <==> self.wf(),
            checked is Err ==> self.fault() == Some(checked->Err_0),
    {
        if self.broken_lifetime <= 0 {
            Err(ConfigError::NonPositiveLifetime)
        } else if self.chance_of_breaking() >= SAMPLE_SPACE as u64 {
            Err(ConfigError::ChanceOutOfRange)
        } else {
            Ok(())
        }
    }
}

} // verus!
