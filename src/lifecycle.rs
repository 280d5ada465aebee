use vstd::prelude::*;
use crate::image::{append_tag, cached, image_cached, tagged};
use crate::invocation::{ContainerSpec, ExecSpec, Invocation, RunError};

verus! {

/// Where a run stands. The phases that name a container are those in which
/// the run owns a container that still has to be removed.
#[derive(Debug, PartialEq, Eq)]
pub enum Phase {
    /// Nothing asked of the engine yet.
    Idle(Invocation),
    /// Waiting for the list of cached images.
    ListingImages(ContainerSpec),
    /// Waiting for the image to be pulled.
    Pulling(ContainerSpec),
    /// Waiting for the container to be created.
    Creating,
    /// Created; waiting for the interrupt handler to be armed with its id.
    Arming { id: String },
    /// Waiting for the container to start.
    Starting { id: String },
    /// Relaying the container's output until the engine closes it.
    Streaming { id: String },
    /// Waiting for the container to exit.
    Waiting { id: String },
    /// Waiting for the container to be removed; `outcome` is the run's.
    Removing { id: String, outcome: Result<(), RunError> },
    /// Looking up a running container by name.
    LookingUp(ExecSpec),
    /// Relaying the output of a command executed in a container of another owner.
    Executing,
    /// The run is over.
    Done(Result<(), RunError>),
}

/// What the engine answered to the last action.
#[derive(Debug, PartialEq, Eq)]
pub enum Event {
    /// The run begins.
    Begin,
    /// The repository tags of each cached image.
    ImagesListed(Vec<Vec<String>>),
    /// The pull's progress stream ran to its end.
    Pulled,
    /// The container was created under this id.
    Created(String),
    /// The interrupt handler is in place.
    Armed,
    /// The container runs.
    Started,
    /// The container's output stream closed.
    StreamClosed,
    /// The container exited.
    Exited,
    /// The container is gone.
    Removed,
    /// The ids of the containers whose name matched, in the engine's order.
    ContainersFound(Vec<String>),
    /// The executed command's output stream closed.
    ExecClosed,
    /// The engine failed the request.
    Failed,
}

/// What is asked of the engine next.
#[derive(Debug, PartialEq, Eq)]
pub enum Action {
    ListImages,
    Pull { image: String },
    Create(ContainerSpec),
    ArmInterrupt { id: String },
    Start { id: String },
    StreamLogs { id: String },
    Wait { id: String },
    Kill { id: String },
    Remove { id: String },
    FindContainer { name: String },
    Exec { id: String, command: Vec<String>, user: String },
    /// The run ends with this outcome.
    Finish(Result<(), RunError>),
}

/// The container that a phase owns, if any.
pub open spec fn owned(p: Phase) -> Option<String> {
    match p {
        Phase::Arming { id } => Some(id),
        Phase::Starting { id } => Some(id),
        Phase::Streaming { id } => Some(id),
        Phase::Waiting { id } => Some(id),
        Phase::Removing { id, .. } => Some(id),
        _ => None,
    }
}

/// The run ends with `outcome`.
pub open spec fn halts(q: Phase, a: Action, outcome: Result<(), RunError>) -> bool {
    q == Phase::Done(outcome) && a == Action::Finish(outcome)
}

/// The container `id` is removed, and the run then ends with `outcome`.
pub open spec fn tears_down(id: String, outcome: Result<(), RunError>, q: Phase, a: Action) -> bool {
    q == (Phase::Removing { id, outcome }) && a == (Action::Remove { id })
}

/// The step from phase `p` on event `e` to phase `q` with action `a`.
pub open spec fn next(p: Phase, e: Event, q: Phase, a: Action) -> bool {
    let unexpected = Err::<(), RunError>(RunError::Unexpected);
    match p {
        Phase::Idle(inv) => {
            if e is Begin {
                match inv {
                    Invocation::NewContainer(c) => q == Phase::ListingImages(c) && a
                        == Action::ListImages,
                    Invocation::ExistingContainer(x) => q == Phase::LookingUp(x) && a == (
                    Action::FindContainer { name: x.container }),
                }
            } else {
                halts(q, a, unexpected)
            }
        },
        Phase::ListingImages(c) => match e {
            Event::ImagesListed(images) => if cached(images@, tagged(c.image@)) {
                q == Phase::Creating && a == Action::Create(c)
            } else {
                &&& q == Phase::Pulling(c)
                &&& a is Pull
                &&& a->image@ == tagged(c.image@)
            },
            Event::Failed => halts(q, a, Err(RunError::Engine)),
            _ => halts(q, a, unexpected),
        },
        Phase::Pulling(c) => match e {
            Event::Pulled => q == Phase::Creating && a == Action::Create(c),
            Event::Failed => halts(q, a, Err(RunError::Engine)),
            _ => halts(q, a, unexpected),
        },
        Phase::Creating => match e {
            Event::Created(id) => q == (Phase::Arming { id }) && a == (Action::ArmInterrupt { id }),
            Event::Failed => halts(q, a, Err(RunError::CreateFailed)),
            _ => halts(q, a, unexpected),
        },
        Phase::Arming { id } => match e {
            Event::Armed => q == (Phase::Starting { id }) && a == (Action::Start { id }),
            Event::Failed => tears_down(id, Err(RunError::InterruptSetupFailed), q, a),
            _ => tears_down(id, unexpected, q, a),
        },
        Phase::Starting { id } => match e {
            Event::Started => q == (Phase::Streaming { id }) && a == (Action::StreamLogs { id }),
            Event::Failed => tears_down(id, Err(RunError::StartFailed), q, a),
            _ => tears_down(id, unexpected, q, a),
        },
        Phase::Streaming { id } => match e {
            Event::StreamClosed => q == (Phase::Waiting { id }) && a == (Action::Wait { id }),
            Event::Failed => q == (Phase::Waiting { id }) && a == (Action::Wait { id }),
            _ => tears_down(id, unexpected, q, a),
        },
        Phase::Waiting { id } => match e {
            Event::Exited => tears_down(id, Ok(()), q, a),
            Event::Failed => tears_down(id, Ok(()), q, a),
            _ => tears_down(id, unexpected, q, a),
        },
        Phase::Removing { outcome, .. } => halts(q, a, outcome),
        Phase::LookingUp(x) => match e {
            Event::ContainersFound(ids) => if ids@.len() == 0 {
                halts(q, a, Err(RunError::ContainerNotFound))
            } else {
                q == Phase::Executing && a == (Action::Exec {
                    id: ids@[0],
                    command: x.command,
                    user: x.user,
                })
            },
            Event::Failed => halts(q, a, Err(RunError::Engine)),
            _ => halts(q, a, unexpected),
        },
        Phase::Executing => match e {
            Event::ExecClosed => halts(q, a, Ok(())),
            Event::Failed => halts(q, a, Err(RunError::Engine)),
            _ => halts(q, a, unexpected),
        },
        Phase::Done(outcome) => halts(q, a, outcome),
    }
}

fn tear_down(id: String, outcome: Result<(), RunError>) -> (r: (Phase, Action))
    ensures
        tears_down(id, outcome, r.0, r.1),
{
    (Phase::Removing { id: id.clone(), outcome }, Action::Remove { id })
}

fn halt(outcome: Result<(), RunError>) -> (r: (Phase, Action))
    ensures
        halts(r.0, r.1, outcome),
{
    (Phase::Done(outcome), Action::Finish(outcome))
}

/// Takes a run one step: from its phase and the engine's answer to the
/// next phase and the next request.
pub fn step(p: Phase, e: Event) -> (r: (Phase, Action))
    ensures
        next(p, e, r.0, r.1),
{
    let unexpected: Result<(), RunError> = Err(RunError::Unexpected);
    match p {
        Phase::Idle(inv) => {
            if let Event::Begin = e {
                match inv {
                    Invocation::NewContainer(c) => (Phase::ListingImages(c), Action::ListImages),
                    Invocation::ExistingContainer(x) => {
                        let name = x.container.clone();
                        (Phase::LookingUp(x), Action::FindContainer { name })
                    },
                }
            } else {
                halt(unexpected)
            }
        },
        Phase::ListingImages(c) => match e {
            Event::ImagesListed(images) => {
                if image_cached(&images, c.image.as_str()) {
                    (Phase::Creating, Action::Create(c))
                } else {
                    let image = append_tag(c.image.as_str());
                    (Phase::Pulling(c), Action::Pull { image })
                }
            },
            Event::Failed => halt(Err(RunError::Engine)),
            _ => halt(unexpected),
        },
        Phase::Pulling(c) => match e {
            Event::Pulled => (Phase::Creating, Action::Create(c)),
            Event::Failed => halt(Err(RunError::Engine)),
            _ => halt(unexpected),
        },
        Phase::Creating => match e {
            Event::Created(id) => {
                let armed = id.clone();
                (Phase::Arming { id }, Action::ArmInterrupt { id: armed })
            },
            Event::Failed => halt(Err(RunError::CreateFailed)),
            _ => halt(unexpected),
        },
        Phase::Arming { id } => match e {
            Event::Armed => {
                let started = id.clone();
                (Phase::Starting { id }, Action::Start { id: started })
            },
            Event::Failed => tear_down(id, Err(RunError::InterruptSetupFailed)),
            _ => tear_down(id, unexpected),
        },
        Phase::Starting { id } => match e {
            Event::Started => {
                let followed = id.clone();
                (Phase::Streaming { id }, Action::StreamLogs { id: followed })
            },
            Event::Failed => tear_down(id, Err(RunError::StartFailed)),
            _ => tear_down(id, unexpected),
        },
        Phase::Streaming { id } => match e {
            Event::StreamClosed | Event::Failed => {
                let awaited = id.clone();
                (Phase::Waiting { id }, Action::Wait { id: awaited })
            },
            _ => tear_down(id, unexpected),
        },
        Phase::Waiting { id } => match e {
            Event::Exited | Event::Failed => tear_down(id, Ok(())),
            _ => tear_down(id, unexpected),
        },
        Phase::Removing { outcome, .. } => halt(outcome),
        Phase::LookingUp(x) => match e {
            Event::ContainersFound(ids) => {
                if ids.len() == 0 {
                    halt(Err(RunError::ContainerNotFound))
                } else {
                    let mut ids = ids;
                    let id = ids.remove(0);
                    (Phase::Executing, Action::Exec { id, command: x.command, user: x.user })
                }
            },
            Event::Failed => halt(Err(RunError::Engine)),
            _ => halt(unexpected),
        },
        Phase::Executing => match e {
            Event::ExecClosed => halt(Ok(())),
            Event::Failed => halt(Err(RunError::Engine)),
            _ => halt(unexpected),
        },
        Phase::Done(outcome) => halt(outcome),
    }
}

} // verus!

verus! {

/// The phases of a run against a container of another owner.
pub open spec fn foreign(p: Phase) -> bool {
    ||| p matches Phase::Idle(Invocation::ExistingContainer(_))
    ||| p is LookingUp
    ||| p is Executing
    ||| p is Done
}

/// An image is pulled only when no cached image carries its tag-qualified
/// reference: a cache hit goes straight to creation.
pub proof fn lemma_pull_only_on_cache_miss(p: Phase, e: Event, q: Phase, a: Action)
    requires
        next(p, e, q, a),
    ensures
        a is Pull ==> {
            &&& p is ListingImages
            &&& e is ImagesListed
            &&& !cached(e->ImagesListed_0@, tagged(p->ListingImages_0.image@))
        },
        p is ListingImages && e is ImagesListed && cached(
            e->ImagesListed_0@,
            tagged(p->ListingImages_0.image@),
        ) ==> a == Action::Create(p->ListingImages_0),
{
}

/// The interrupt handler is armed with a container's id as soon as it is
/// created, and a container is started only once that handler is in place.
pub proof fn lemma_armed_before_start(p: Phase, e: Event, q: Phase, a: Action)
    requires
        next(p, e, q, a),
    ensures
        p is Creating && e is Created ==> a == (Action::ArmInterrupt { id: e->Created_0 }),
        a is Start ==> p is Arming && e is Armed && a->Start_id == p->Arming_id,
{
}

/// A created container is never left behind: the run keeps it until it asks
/// for its removal, and ends only once nothing is owned or removal was asked.
pub proof fn lemma_owned_until_removed(p: Phase, e: Event, q: Phase, a: Action)
    requires
        next(p, e, q, a),
    ensures
        owned(p) is Some && !(p is Removing) ==> owned(q) == owned(p),
        q is Removing && !(p is Removing) ==> a == (Action::Remove { id: q->Removing_id }),
        owned(q) is Some && owned(q) != owned(p) ==> a == (Action::ArmInterrupt {
            id: owned(q)->0,
        }),
        a is Finish ==> owned(p) is None || p is Removing,
{
}

/// A run against a container of another owner stays among its own phases
/// and never kills, removes or creates a container.
pub proof fn lemma_foreign_never_removed(p: Phase, e: Event, q: Phase, a: Action)
    requires
        next(p, e, q, a),
        foreign(p),
    ensures
        foreign(q),
        !(a is Remove),
        !(a is Kill),
        !(a is Create),
        owned(q) is None,
{
}

} // verus!
