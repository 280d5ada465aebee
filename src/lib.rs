//! Runs a command inside a fresh or an existing container: the rules that
//! decide what is asked of the container engine, and in which order.

mod image;
mod interrupt;
mod invocation;
mod lifecycle;
mod relay;

pub use image::{append_tag, cached, has_colon, image_cached, latest_suffix, tagged};
pub use invocation::{
    container_dir, container_volumes, decimal, decimal_string, digit_char, identity, mounts_given,
    plan, planned, user_identity, volumes_of, workdir_mount, Args, ContainerSpec, ExecSpec,
    Invocation, RunError,
};
pub use relay::{lossy_text, payload, relay, sink_of, LogChunk, Sink};
pub use interrupt::{
    kill_verdict, kill_verdict_of, remove_verdict, remove_verdict_of, InterruptSlot, Teardown,
    NOT_FOUND, NOT_RUNNING,
};
pub use lifecycle::{
    foreign, halts, lemma_armed_before_start, lemma_foreign_never_removed, lemma_owned_until_removed,
    lemma_pull_only_on_cache_miss, next, owned, step, tears_down, Action, Event, Phase,
};
