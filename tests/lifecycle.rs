use ric::{
    kill_verdict, remove_verdict, step, Action, ContainerSpec, Event, ExecSpec, InterruptSlot,
    Invocation, Phase, RunError, Teardown,
};

fn strings(v: &[&str]) -> Vec<String> {
    v.iter().map(|s| s.to_string()).collect()
}

fn debian_ls() -> ContainerSpec {
    ContainerSpec {
        image: "debian".to_string(),
        command: strings(&["ls"]),
        volumes: strings(&["/w:/tmp"]),
        working_dir: "/tmp".to_string(),
        user: "1000:1000".to_string(),
    }
}

fn ls_root() -> ExecSpec {
    ExecSpec {
        container: "run_in_container".to_string(),
        command: strings(&["ls", "/"]),
        user: "1000:1000".to_string(),
    }
}

/// Feeds `events` to a run of `inv` and returns every action it asked for.
fn drive(inv: Invocation, events: Vec<Event>) -> Vec<Action> {
    let mut phase = Phase::Idle(inv);
    let mut actions = Vec::new();
    for e in events {
        let (p, a) = step(phase, e);
        phase = p;
        actions.push(a);
    }
    actions
}

fn id(s: &str) -> String {
    s.to_string()
}

#[test]
fn fresh_container_full_run() {
    let actions = drive(
        Invocation::NewContainer(debian_ls()),
        vec![
            Event::Begin,
            Event::ImagesListed(Vec::new()),
            Event::Pulled,
            Event::Created(id("c1")),
            Event::Armed,
            Event::Started,
            Event::StreamClosed,
            Event::Exited,
            Event::Removed,
        ],
    );
    assert_eq!(
        actions,
        vec![
            Action::ListImages,
            Action::Pull { image: id("debian:latest") },
            Action::Create(debian_ls()),
            Action::ArmInterrupt { id: id("c1") },
            Action::Start { id: id("c1") },
            Action::StreamLogs { id: id("c1") },
            Action::Wait { id: id("c1") },
            Action::Remove { id: id("c1") },
            Action::Finish(Ok(())),
        ]
    );
}

#[test]
fn cached_image_is_not_pulled() {
    let cached = vec![strings(&["debian:latest"])];
    let actions = drive(
        Invocation::NewContainer(debian_ls()),
        vec![Event::Begin, Event::ImagesListed(cached)],
    );
    assert_eq!(actions, vec![Action::ListImages, Action::Create(debian_ls())]);
}

#[test]
fn image_list_failure_ends_run() {
    let actions = drive(Invocation::NewContainer(debian_ls()), vec![Event::Begin, Event::Failed]);
    assert_eq!(actions[1], Action::Finish(Err(RunError::Engine)));
}

#[test]
fn creation_failure_ends_run() {
    let actions = drive(
        Invocation::NewContainer(debian_ls()),
        vec![Event::Begin, Event::ImagesListed(vec![strings(&["debian:latest"])]), Event::Failed],
    );
    assert_eq!(actions[2], Action::Finish(Err(RunError::CreateFailed)));
}

#[test]
fn start_failure_still_removes() {
    let actions = drive(
        Invocation::NewContainer(debian_ls()),
        vec![
            Event::Begin,
            Event::ImagesListed(vec![strings(&["debian:latest"])]),
            Event::Created(id("c2")),
            Event::Armed,
            Event::Failed,
            Event::Removed,
        ],
    );
    assert_eq!(actions[4], Action::Remove { id: id("c2") });
    assert_eq!(actions[5], Action::Finish(Err(RunError::StartFailed)));
}

#[test]
fn arming_failure_still_removes() {
    let actions = drive(
        Invocation::NewContainer(debian_ls()),
        vec![
            Event::Begin,
            Event::ImagesListed(vec![strings(&["debian:latest"])]),
            Event::Created(id("c3")),
            Event::Failed,
            Event::Failed,
        ],
    );
    assert_eq!(actions[3], Action::Remove { id: id("c3") });
    assert_eq!(actions[4], Action::Finish(Err(RunError::InterruptSetupFailed)));
}

#[test]
fn wait_failure_still_removes_once() {
    let actions = drive(
        Invocation::NewContainer(debian_ls()),
        vec![
            Event::Begin,
            Event::ImagesListed(vec![strings(&["debian:latest"])]),
            Event::Created(id("c4")),
            Event::Armed,
            Event::Started,
            Event::Failed,
            Event::Failed,
            Event::Failed,
        ],
    );
    assert_eq!(actions[5], Action::Wait { id: id("c4") });
    assert_eq!(actions[6], Action::Remove { id: id("c4") });
    assert_eq!(actions[7], Action::Finish(Ok(())));
    let removes = actions.iter().filter(|a| matches!(a, Action::Remove { .. })).count();
    assert_eq!(removes, 1);
}

#[test]
fn unexpected_event_with_container_removes_it() {
    let actions = drive(
        Invocation::NewContainer(debian_ls()),
        vec![
            Event::Begin,
            Event::ImagesListed(vec![strings(&["debian:latest"])]),
            Event::Created(id("c5")),
            Event::Pulled,
            Event::Removed,
        ],
    );
    assert_eq!(actions[3], Action::Remove { id: id("c5") });
    assert_eq!(actions[4], Action::Finish(Err(RunError::Unexpected)));
}

#[test]
fn existing_container_run() {
    let actions = drive(
        Invocation::ExistingContainer(ls_root()),
        vec![
            Event::Begin,
            Event::ContainersFound(strings(&["abc", "def"])),
            Event::ExecClosed,
            Event::Removed,
        ],
    );
    assert_eq!(
        actions,
        vec![
            Action::FindContainer { name: id("run_in_container") },
            Action::Exec { id: id("abc"), command: strings(&["ls", "/"]), user: id("1000:1000") },
            Action::Finish(Ok(())),
            Action::Finish(Ok(())),
        ]
    );
    assert!(!actions.iter().any(|a| matches!(a, Action::Remove { .. } | Action::Kill { .. })));
}

#[test]
fn missing_container_is_an_error() {
    let actions = drive(
        Invocation::ExistingContainer(ls_root()),
        vec![Event::Begin, Event::ContainersFound(Vec::new())],
    );
    assert_eq!(actions[1], Action::Finish(Err(RunError::ContainerNotFound)));
}

#[test]
fn interrupt_kills_then_removes_once() {
    let mut slot = InterruptSlot::armed(id("c6"));
    assert_eq!(
        slot.on_interrupt(),
        vec![Action::Kill { id: id("c6") }, Action::Remove { id: id("c6") }]
    );
    assert!(slot.on_interrupt().is_empty());
    assert!(slot.on_interrupt().is_empty());
}

#[test]
fn failed_exec_is_an_engine_error() {
    let actions = drive(
        Invocation::ExistingContainer(ls_root()),
        vec![Event::Begin, Event::ContainersFound(strings(&["abc"])), Event::Failed],
    );
    assert_eq!(actions[2], Action::Finish(Err(RunError::Engine)));
}

#[test]
fn kill_of_gone_or_stopped_container_is_benign() {
    assert_eq!(kill_verdict(Ok(())), Teardown::Done);
    assert_eq!(kill_verdict(Err(Some(404))), Teardown::AlreadyGone);
    assert_eq!(kill_verdict(Err(Some(409))), Teardown::AlreadyGone);
    assert_eq!(kill_verdict(Err(Some(500))), Teardown::Failed);
    assert_eq!(kill_verdict(Err(None)), Teardown::Failed);
}

#[test]
fn removal_of_gone_container_is_benign() {
    assert_eq!(remove_verdict(Ok(())), Teardown::Done);
    assert_eq!(remove_verdict(Err(Some(404))), Teardown::AlreadyGone);
    assert_eq!(remove_verdict(Err(Some(409))), Teardown::Failed);
    assert_eq!(remove_verdict(Err(Some(500))), Teardown::Failed);
    assert_eq!(remove_verdict(Err(None)), Teardown::Failed);
}
