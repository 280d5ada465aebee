use vstd::prelude::*;

verus! {

/// What a run was asked to do, as given on the command line.
#[derive(Clone, Debug, PartialEq, Eq)]
pub struct Args {
    pub image: Option<String>,
    pub container: Option<String>,
    pub mounts: Option<Vec<String>>,
    pub root: bool,
    pub command: Vec<String>,
}

/// Configuration of a container created for one run.
#[derive(Clone, Debug, PartialEq, Eq)]
pub struct ContainerSpec {
    pub image: String,
    pub command: Vec<String>,
    pub volumes: Vec<String>,
    pub working_dir: String,
    pub user: String,
}

/// A command executed inside a container that someone else started.
#[derive(Clone, Debug, PartialEq, Eq)]
pub struct ExecSpec {
    pub container: String,
    pub command: Vec<String>,
    pub user: String,
}

/// The two ways of running a command.
#[derive(Clone, Debug, PartialEq, Eq)]
pub enum Invocation {
    NewContainer(ContainerSpec),
    ExistingContainer(ExecSpec),
}

/// Why a run stopped before its command could run to the end.
#[derive(Clone, Copy, Debug, PartialEq, Eq, Structural)]
pub enum RunError {
    /// Neither an image nor a container was named.
    NoTarget,
    /// Both an image and a container were named.
    BothTargets,
    /// The engine failed a request that the run cannot do without.
    Engine,
    /// The engine refused to create the container.
    CreateFailed,
    /// The interrupt handler could not be installed.
    InterruptSetupFailed,
    /// The engine refused to start the container.
    StartFailed,
    /// No container carries the name that was given.
    ContainerNotFound,
    /// The engine's answer did not fit the request that was made.
    Unexpected,
}

/// The directory of the container where the caller's directory is mounted
/// and where the command runs.
pub open spec fn container_dir() -> Seq<char> {
    seq!['/', 't', 'm', 'p']
}

/// The mount of the caller's working directory.
pub open spec fn workdir_mount(cwd: Seq<char>) -> Seq<char> {
    cwd + seq![':'] + container_dir()
}

/// The character of a decimal digit.
pub open spec fn digit_char(d: nat) -> char {
    seq!['0', '1', '2', '3', '4', '5', '6', '7', '8', '9'][d as int]
}

/// The decimal notation of a number, without leading zeros.
pub open spec fn decimal(n: nat) -> Seq<char>
    decreases n,
{
    if n < 10 {
        seq![digit_char(n)]
    } else {
        decimal(n / 10).push(digit_char(n % 10))
    }
}

/// The `uid:gid` pair under which the command runs.
pub open spec fn identity(root: bool, uid: nat, gid: nat) -> Seq<char> {
    if root {
        seq!['0', ':', '0']
    } else {
        decimal(uid) + seq![':'] + decimal(gid)
    }
}

/// The user's mounts, in their order, then the working directory's.
pub open spec fn volumes_of(r: Seq<String>, mounts: Seq<String>, cwd: Seq<char>) -> bool {
    &&& r.len() == mounts.len() + 1
    &&& r.take(mounts.len() as int) == mounts
    &&& r.last()@ == workdir_mount(cwd)
}

/// The user's mounts, none when the option was not given.
pub open spec fn mounts_given(mounts: Option<Vec<String>>) -> Seq<String> {
    match mounts {
        Some(v) => v@,
        None => Seq::empty(),
    }
}

/// What a run given `args` is to do, from the caller's working directory
/// `cwd` and identity `uid:gid`.
pub open spec fn planned(
    args: Args,
    cwd: Seq<char>,
    uid: nat,
    gid: nat,
    r: Result<Option<Invocation>, RunError>,
) -> bool {
    if args.command@.len() == 0 {
        r == Ok::<Option<Invocation>, RunError>(None)
    } else if args.image is None && args.container is None {
        r == Err::<Option<Invocation>, RunError>(RunError::NoTarget)
    } else if args.image is Some && args.container is Some {
        r == Err::<Option<Invocation>, RunError>(RunError::BothTargets)
    } else if args.image is Some {
        r matches Ok(Some(Invocation::NewContainer(c))) && {
            &&& c.image@ == args.image->0@
            &&& c.command == args.command
            &&& volumes_of(c.volumes@, mounts_given(args.mounts), cwd)
            &&& c.working_dir@ == container_dir()
            &&& c.user@ == identity(args.root, uid, gid)
        }
    } else {
        r matches Ok(Some(Invocation::ExistingContainer(e))) && {
            &&& e.container@ == args.container->0@
            &&& e.command == args.command
            &&& e.user@ == identity(args.root, uid, gid)
        }
    }
}

fn digit_str(d: u32) -> (r: &'static str)
    requires
        d < 10,
    ensures
        r@ == seq![digit_char(d as nat)],
{
    proof {
        reveal_strlit("0");
        reveal_strlit("1");
        reveal_strlit("2");
        reveal_strlit("3");
        reveal_strlit("4");
        reveal_strlit("5");
        reveal_strlit("6");
        reveal_strlit("7");
        reveal_strlit("8");
        reveal_strlit("9");
    }
    if d == 0 {
        "0"
    } else if d == 1 {
        "1"
    } else if d == 2 {
        "2"
    } else if d == 3 {
        "3"
    } else if d == 4 {
        "4"
    } else if d == 5 {
        "5"
    } else if d == 6 {
        "6"
    } else if d == 7 {
        "7"
    } else if d == 8 {
        "8"
    } else {
        "9"
    }
}

/// The decimal notation of `n`.
pub fn decimal_string(n: u32) -> (r: String)
    ensures
        r@ == decimal(n as nat),
    decreases n,
{
    if n < 10 {
        String::from_str(digit_str(n))
    } else {
        let mut r = decimal_string(n / 10);
        r.append(digit_str(n % 10));
        r
    }
}

/// The identity a command runs under: `0:0` for root, else the caller's.
pub fn user_identity(root: bool, uid: u32, gid: u32) -> (r: String)
    ensures
        r@ == identity(root, uid as nat, gid as nat),
{
    if root {
        let zero = "0:0";
        proof {
            reveal_strlit("0:0");
        }
        String::from_str(zero)
    } else {
        let mut r = decimal_string(uid);
        let colon = ":";
        proof {
            reveal_strlit(":");
        }
        r.append(colon);
        let g = decimal_string(gid);
        r.append(g.as_str());
        r
    }
}

/// The volume list of a new container: the user's mounts in their order,
/// then `cwd:/tmp`.
pub fn container_volumes(mounts: Vec<String>, cwd: &str) -> (r: Vec<String>)
    ensures
        volumes_of(r@, mounts@, cwd@),
{
    let mut r = mounts;
    let m = String::from_str(cwd);
    let tail = ":/tmp";
    proof {
        reveal_strlit(":/tmp");
    }
    r.push(m.concat(tail));
    proof {
        assert(r@.take(mounts@.len() as int) =~= mounts@);
        assert(seq![':'] + container_dir() =~= tail@);
        assert(cwd@ + seq![':'] + container_dir() =~= cwd@ + tail@);
    }
    r
}

/// Decides what a run does from its arguments, the caller's working
/// directory and identity. An empty command is nothing to do; exactly one
/// of an image and a container must be named.
pub fn plan(args: Args, cwd: &str, uid: u32, gid: u32) -> (r: Result<Option<Invocation>, RunError>)
    ensures
        planned(args, cwd@, uid as nat, gid as nat, r),
{
    if args.command.len() == 0 {
        return Ok(None);
    }
    let user = user_identity(args.root, uid, gid);
    match (args.image, args.container) {
        (None, None) => Err(RunError::NoTarget),
        (Some(_), Some(_)) => Err(RunError::BothTargets),
        (Some(image), None) => {
            let mounts = match args.mounts {
                Some(v) => v,
                None => Vec::new(),
            };
            let dir = "/tmp";
            proof {
                reveal_strlit("/tmp");
            }
            let volumes = container_volumes(mounts, cwd);
            let working_dir = String::from_str(dir);
            assert(working_dir@ == container_dir());
            let c = ContainerSpec { image, command: args.command, volumes, working_dir, user };
            Ok(Some(Invocation::NewContainer(c)))
        },
        (None, Some(container)) => {
            Ok(
                Some(
                    Invocation::ExistingContainer(
                        ExecSpec { container, command: args.command, user },
                    ),
                ),
            )
        },
    }
}

} // verus!
