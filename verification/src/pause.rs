//! The screen that ends a run.

use crate::keys::FixKey;
use crate::session::SessionOutcome;
use crate::text::join3;
use vstd::prelude::*;

verus! {

/// Why a run has ended.
#[derive(Clone, Copy, Debug, PartialEq, Eq, Structural)]
pub enum GameOverCause {
    /// The key was pressed while objects were broken and none of them took it.
    WrongKey(FixKey),
    /// The object with this key was not repaired in time.
    NotInTime(FixKey),
}

impl GameOverCause {
    /// The cause that an outcome gives for ending the run, if it gives one.
    pub open spec fn of(outcome: SessionOutcome) -> Option<GameOverCause> {
        match outcome {
            SessionOutcome::Clear => None,
            SessionOutcome::WrongKey(key) => Some(GameOverCause::WrongKey(key)),
            SessionOutcome::Timeout(key) => Some(GameOverCause::NotInTime(key)),
        }
    }

    /// The sentence that tells the player the cause.
    pub open spec fn sentence(self) -> Seq<char> {
        match self {
            GameOverCause::WrongKey(key) => "You pressed "@ + key.label()
                + " when nothing needed it."@,
            GameOverCause::NotInTime(key) => "You waited too long to press "@ + key.label() + "."@,
        }
    }

    /// The cause that an outcome gives for ending the run, if it gives one.
    pub fn from_outcome(outcome: SessionOutcome) -> (cause: Option<GameOverCause>)
        ensures
            cause == GameOverCause::of(outcome),
    {
        match outcome {
            SessionOutcome::Clear => None,
            SessionOutcome::WrongKey(key) => Some(GameOverCause::WrongKey(key)),
            SessionOutcome::Timeout(key) => Some(GameOverCause::NotInTime(key)),
        }
    }
}

/// The screen that is shown once a run has ended.
#[derive(Clone, Copy, Debug)]
pub struct GameOverScreen {
    pub(crate) cause: GameOverCause,
}

impl GameOverScreen {
    /// The model of the screen: the cause it was made for.
    pub open(crate) spec fn view(&self) -> GameOverCause {
        self.cause
    }

    /// The screen for a run that ended for `cause`.
    pub fn new(cause: GameOverCause) -> (screen: GameOverScreen)
        ensures
            screen@ == cause,
    {
        GameOverScreen { cause }
    }

    pub fn cause(&self) -> (cause: GameOverCause)
        ensures
            cause == self@,
    {
        self.cause
    }

    /// The heading of the screen.
    pub fn title(&self) -> (title: &'static str)
        ensures
            title@ == "Game Over"@,
    {
        "Game Over"
    }

    /// The sentence below the heading.
    pub fn description(&self) -> (text: String)
        ensures
            text@ == self@.sentence(),
    {
        match self.cause {
            GameOverCause::WrongKey(key) => join3(
                "You pressed ",
                key.name(),
                " when nothing needed it.",
            ),
            GameOverCause::NotInTime(key) => join3("You waited too long to press ", key.name(), "."),
        }
    }
}

} // verus!
