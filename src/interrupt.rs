use vstd::prelude::*;
use crate::lifecycle::Action;

verus! {

/// The id of the container that an interrupt has to tear down, handed out
/// at most once however often the interrupt comes.
#[derive(Debug, PartialEq, Eq)]
pub struct InterruptSlot {
    id: Option<String>,
}

impl InterruptSlot {
    /// The container still to be torn down, if any.
    pub closed spec fn held(&self) -> Option<String> {
        self.id
    }

    /// A slot armed with the container `id`.
    pub fn armed(id: String) -> (r: InterruptSlot)
        ensures
            r.held() == Some(id),
    {
        InterruptSlot { id: Some(id) }
    }

    /// What an interrupt asks of the engine: the first time, to kill the
    /// container and then remove it; afterwards, nothing.
    pub fn on_interrupt(&mut self) -> (r: Vec<Action>)
        ensures
            final(self).held() is None,
            old(self).held() is None ==> r@.len() == 0,
            old(self).held() matches Some(id) ==> r@ == seq![
                Action::Kill { id },
                Action::Remove { id },
            ],
    {
        match self.id.take() {
            Some(id) => {
                let killed = id.clone();
                let mut r: Vec<Action> = Vec::new();
                r.push(Action::Kill { id: killed });
                r.push(Action::Remove { id });
                r
            },
            None => Vec::new(),
        }
    }
}

/// How a kill or a remove request ended, as far as cleanup is concerned.
#[derive(Clone, Copy, Debug, PartialEq, Eq, Structural)]
pub enum Teardown {
    /// The engine did what was asked.
    Done,
    /// The container was already in the state asked for: nothing to report.
    AlreadyGone,
    /// The engine refused: worth an error in the log, never a failed run.
    Failed,
}

/// The HTTP status with which the engine reports an unknown container.
pub const NOT_FOUND: u16 = 404;

/// The HTTP status with which the engine refuses to kill a stopped container.
pub const NOT_RUNNING: u16 = 409;

/// The verdict on a kill request that ended with `result`, an error carrying
/// the engine's status when there was one: a container that is gone or no
/// longer runs needs no kill.
pub open spec fn kill_verdict_of(result: Result<(), Option<u16>>) -> Teardown {
    match result {
        Ok(()) => Teardown::Done,
        Err(Some(code)) => if code == NOT_FOUND || code == NOT_RUNNING {
            Teardown::AlreadyGone
        } else {
            Teardown::Failed
        },
        Err(None) => Teardown::Failed,
    }
}

/// The verdict on a remove request: a container that is not found has been
/// removed already, by the other of the two paths that may remove it.
pub open spec fn remove_verdict_of(result: Result<(), Option<u16>>) -> Teardown {
    match result {
        Ok(()) => Teardown::Done,
        Err(Some(code)) => if code == NOT_FOUND {
            Teardown::AlreadyGone
        } else {
            Teardown::Failed
        },
        Err(None) => Teardown::Failed,
    }
}

/// Classifies the end of a kill request.
pub fn kill_verdict(result: Result<(), Option<u16>>) -> (r: Teardown)
    ensures
        r == kill_verdict_of(result),
{
    match result {
        Ok(()) => Teardown::Done,
        Err(Some(code)) => {
            if code == NOT_FOUND || code == NOT_RUNNING {
                Teardown::AlreadyGone
            } else {
                Teardown::Failed
            }
        },
        Err(None) => Teardown::Failed,
    }
}

/// Classifies the end of a remove request.
pub fn remove_verdict(result: Result<(), Option<u16>>) -> (r: Teardown)
    ensures
        r == remove_verdict_of(result),
{
    match result {
        Ok(()) => Teardown::Done,
        Err(Some(code)) => {
            if code == NOT_FOUND {
                Teardown::AlreadyGone
            } else {
                Teardown::Failed
            }
        },
        Err(None) => Teardown::Failed,
    }
}

} // verus!
