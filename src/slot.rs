use vstd::prelude::*;
use crate::message::HttpError;

verus! {

/// The one client that every send of a process shares. It starts empty; the
/// first send builds the client and the slot keeps the outcome, a client or the
/// error that the build gave, for the rest of the process: nothing is built or
/// read again. Callers that share it across threads guard it with a lock, so
/// that concurrent first sends converge on one outcome.
pub struct ClientSlot {
    outcome: Option<Result<reqwest::Client, HttpError>>,
    builds: Ghost<nat>,
}

/// The outcome that a slot holds, if any, and how many builds it has run.
pub type SlotState = (Option<Result<reqwest::Client, HttpError>>, nat);

/// The state of a slot after one `get_or_init`, where `built` is what the
/// build would give if it ran: a slot that holds an outcome does not build.
pub open spec fn after_attempt(s: SlotState, built: Result<reqwest::Client, HttpError>) -> SlotState {
    match s.0 {
        Some(_) => s,
        None => (Some(built), s.1 + 1),
    }
}

/// The state of a slot after a sequence of `get_or_init` calls, one for each
/// entry of `attempts`.
pub open spec fn after_attempts(s: SlotState, attempts: Seq<Result<reqwest::Client, HttpError>>) -> SlotState
    decreases attempts.len(),
{
    if attempts.len() == 0 {
        s
    } else {
        after_attempts(after_attempt(s, attempts[0]), attempts.drop_first())
    }
}

/// What `get_or_init` reports for the outcome `built`.
pub open spec fn reported(built: Result<reqwest::Client, HttpError>) -> Result<(), HttpError> {
    match built {
        Ok(_) => Ok(()),
        Err(e) => Err(e),
    }
}

impl ClientSlot {
    pub closed spec fn view(&self) -> SlotState {
        (self.outcome, self.builds@)
    }

    /// An empty slot: no build has run.
    pub fn new() -> (r: ClientSlot)
        ensures
            r.view() == (None::<Result<reqwest::Client, HttpError>>, 0nat),
    {
        ClientSlot { outcome: None, builds: Ghost(0) }
    }

    /// Whether the build has run, successfully or not.
    pub fn is_ready(&self) -> (r: bool)
        ensures
            r == self.view().0 is Some,
    {
        self.outcome.is_some()
    }

    /// Makes sure the slot holds an outcome and reports it. A slot that holds
    /// one is left as it is and `init` is not called. An empty one calls `init`
    /// once and keeps what it gives, a client or an error.
    pub fn get_or_init<F>(&mut self, init: F) -> (r: Result<(), HttpError>)
        where
            F: FnOnce() -> Result<reqwest::Client, HttpError>,
        requires
            old(self).view().0 is None ==> init.requires(()),
        ensures
            old(self).view().0 matches Some(kept) ==> final(self).view() == old(self).view() && r
                == reported(kept),
            old(self).view().0 is None ==> exists|built: Result<reqwest::Client, HttpError>|
                #[trigger] init.ensures((), built) && final(self).view() == after_attempt(
                    old(self).view(),
                    built,
                ) && r == reported(built),
    {
        match &self.outcome {
            Some(Ok(_)) => Ok(()),
            Some(Err(e)) => Err(e.duplicate()),
            None => {
                let built = init();
                let r = match &built {
                    Ok(_) => Ok(()),
                    Err(e) => Err(e.duplicate()),
                };
                self.outcome = Some(built);
                self.builds = Ghost(self.builds@ + 1);
                r
            },
        }
    }

    /// The client, once a build has given one.
    pub fn client(&self) -> (r: Option<&reqwest::Client>)
        ensures
            r is None <==> !(self.view().0 matches Some(Ok(_))),
            r matches Some(c) ==> self.view().0 == Some(Ok::<reqwest::Client, HttpError>(*c)),
    {
        match &self.outcome {
            Some(Ok(c)) => Some(c),
            _ => None,
        }
    }
}

/// Once a slot holds an outcome, no further `get_or_init` changes it: every
/// later send sees that same outcome and nothing is built again.
pub proof fn lemma_kept_outcome(s: SlotState, attempts: Seq<Result<reqwest::Client, HttpError>>)
    requires
        s.0 is Some,
    ensures
        after_attempts(s, attempts) == s,
    decreases attempts.len(),
{
    if attempts.len() > 0 {
        lemma_kept_outcome(after_attempt(s, attempts[0]), attempts.drop_first());
    }
}

/// Starting from an empty slot, one or more `get_or_init` calls run the build
/// exactly once, whether it succeeds or fails, and keep what the first gave.
pub proof fn lemma_built_once(attempts: Seq<Result<reqwest::Client, HttpError>>)
    requires
        attempts.len() >= 1,
    ensures
        after_attempts((None, 0), attempts) == (Some(attempts[0]), 1nat),
{
    let first: SlotState = (Some(attempts[0]), 1nat);
    lemma_kept_outcome(first, attempts.drop_first());
}

} // verus!
