use vstd::prelude::*;

use crate::text::same_text;

verus! {

/// The ponder tracker: the opponent reply predicted after the bot's last
/// move, while a speculative search on it is running.
#[derive(Clone, Debug)]
pub enum PonderState {
    Idle,
    Pondering(String),
}

/// How the move the opponent actually played compares with the prediction.
#[derive(Clone, Copy, Debug, PartialEq, Eq, Structural)]
pub enum PonderOutcome {
    /// No prediction was pending: a fresh decision.
    Fresh,
    /// The prediction came true: the speculative search goes on.
    Hit,
    /// The prediction failed: the search restarts from the true position.
    Miss,
}

pub open spec fn reconciled(pending: PonderState, observed: Option<Seq<char>>) -> PonderOutcome {
    match pending {
        PonderState::Idle => PonderOutcome::Fresh,
        PonderState::Pondering(p) => match observed {
            None => PonderOutcome::Fresh,
            Some(t) => if p@ == t {
                PonderOutcome::Hit
            } else {
                PonderOutcome::Miss
            },
        },
    }
}

impl PonderState {
    pub open spec fn is_pending(&self) -> bool {
        self is Pondering
    }

    /// Compares the pending prediction with the opponent's latest move and
    /// clears the prediction, which is settled either way.
    pub fn reconcile(&mut self, observed: Option<&String>) -> (r: PonderOutcome)
        ensures
            r == reconciled(
                *old(self),
                match observed {
                    Some(t) => Some(t@),
                    None => None,
                },
            ),
            *final(self) is Idle,
    {
        let r = match self {
            PonderState::Idle => PonderOutcome::Fresh,
            PonderState::Pondering(p) => match observed {
                None => PonderOutcome::Fresh,
                Some(t) => if same_text(p.as_str(), t.as_str()) {
                    PonderOutcome::Hit
                } else {
                    PonderOutcome::Miss
                },
            },
        };
        *self = PonderState::Idle;
        r
    }
}

} // verus!
