//! How the backend process is started: which executable, which interpreter,
//! which environment, which working directory and which streams.

use crate::paths::{join_path, joined};
use crate::text::{decimal_digits, decimal_text};
use vstd::prelude::*;
use vstd::string::*;

verus! {

/// Why the backend could not be started.
#[derive(Clone, Copy, Debug, PartialEq, Eq, Structural)]
pub enum LaunchError {
    /// Neither candidate location of the backend executable was found.
    ExecutableNotFound,
    /// The operating system did not create the process.
    SpawnFailed,
}

/// What is done with one of the child's standard streams.
#[derive(Clone, Copy, Debug, PartialEq, Eq, Structural)]
pub enum StreamPlan {
    /// The stream is closed: the child reads end of file from it.
    Closed,
    /// The stream is a pipe that the parent reads to the end and discards,
    /// so that the child never waits on a full pipe.
    Drained,
}

/// One variable of the child's environment.
#[derive(Clone, Debug, PartialEq, Eq)]
pub struct EnvVar {
    pub name: String,
    pub value: String,
}

/// Everything that is needed to create the backend process.
#[derive(Clone, Debug, PartialEq, Eq)]
pub struct LaunchPlan {
    /// The interpreter that runs the backend.
    pub program: String,
    /// Its arguments: the backend executable, then the command.
    pub args: Vec<String>,
    /// The variables that are set for the child, in this order.
    pub env: Vec<EnvVar>,
    /// The child's working directory.
    pub working_dir: String,
    pub stdin: StreamPlan,
    pub stdout: StreamPlan,
    pub stderr: StreamPlan,
    /// How long the launcher waits after the process was created, before it
    /// hands control back, in milliseconds.
    pub settle_delay_ms: u64,
}

/// A launch plan as mathematical data.
pub struct LaunchPlanView {
    pub program: Seq<char>,
    pub args: Seq<Seq<char>>,
    pub env: Seq<(Seq<char>, Seq<char>)>,
    pub working_dir: Seq<char>,
    pub stdin: StreamPlan,
    pub stdout: StreamPlan,
    pub stderr: StreamPlan,
    pub settle_delay_ms: nat,
}

impl View for EnvVar {
    type V = (Seq<char>, Seq<char>);

    open spec fn view(&self) -> (Seq<char>, Seq<char>) {
        (self.name@, self.value@)
    }
}

impl View for LaunchPlan {
    type V = LaunchPlanView;

    open spec fn view(&self) -> LaunchPlanView {
        LaunchPlanView {
            program: self.program@,
            args: self.args@.map_values(|a: String| a@),
            env: self.env@.map_values(|v: EnvVar| v@),
            working_dir: self.working_dir@,
            stdin: self.stdin,
            stdout: self.stdout,
            stderr: self.stderr,
            settle_delay_ms: self.settle_delay_ms as nat,
        }
    }
}

/// The delay after process creation, in milliseconds.
pub const SETTLE_DELAY_MS: u64 = 200;

/// The directory whose presence says that a bundled backend is installed
/// below the application root `root`.
pub open spec fn bundle_dir_text(root: Seq<char>) -> Seq<char> {
    joined(root, "compiled"@)
}

/// The backend executable of the bundle below `root`: the first candidate.
pub open spec fn bundled_executable_text(root: Seq<char>) -> Seq<char> {
    joined(bundle_dir_text(root), "node_modules/.bin/n8n"@)
}

/// The backend executable of the workspace below `root`: the second
/// candidate.
pub open spec fn workspace_executable_text(root: Seq<char>) -> Seq<char> {
    joined(root, "packages/cli/bin/n8n"@)
}

/// The backend executable that is started: the bundled one where the bundle
/// is present, else the workspace's where that is present, else none.
pub open spec fn resolved_executable(
    root: Seq<char>,
    bundle_present: bool,
    workspace_present: bool,
) -> Result<Seq<char>, LaunchError> {
    if bundle_present {
        Ok(bundled_executable_text(root))
    } else if workspace_present {
        Ok(workspace_executable_text(root))
    } else {
        Err(LaunchError::ExecutableNotFound)
    }
}

/// The interpreter that is started: the one found on the search path, or
/// the bare name where none was found.
pub open spec fn resolved_interpreter(found: Option<Seq<char>>, name: Seq<char>) -> Seq<char> {
    match found {
        Some(path) => path,
        None => name,
    }
}

/// The variables that the backend is started with.
pub open spec fn launch_env_text(port: nat, secret: Seq<char>) -> Seq<(Seq<char>, Seq<char>)> {
    seq![
        ("N8N_PORT"@, decimal_digits(port)),
        ("N8N_LISTEN_ADDRESS"@, "127.0.0.1"@),
        ("N8N_HOST"@, "localhost"@),
        ("N8N_PROTOCOL"@, "http"@),
        ("N8N_ENCRYPTION_KEY"@, secret),
    ]
}

/// The plan by which `executable` is started under `interpreter`.
pub open spec fn launch_plan_of(
    root: Seq<char>,
    executable: Seq<char>,
    interpreter: Seq<char>,
    port: nat,
    secret: Seq<char>,
) -> LaunchPlanView {
    LaunchPlanView {
        program: interpreter,
        args: seq![executable, "start"@],
        env: launch_env_text(port, secret),
        working_dir: root,
        stdin: StreamPlan::Closed,
        stdout: StreamPlan::Drained,
        stderr: StreamPlan::Drained,
        settle_delay_ms: SETTLE_DELAY_MS as nat,
    }
}

/// The outcome of planning a launch: the plan for the resolved executable,
/// or the reason why there is none.
pub open spec fn planned_launch(
    root: Seq<char>,
    bundle_present: bool,
    workspace_present: bool,
    interpreter: Seq<char>,
    port: nat,
    secret: Seq<char>,
) -> Result<LaunchPlanView, LaunchError> {
    match resolved_executable(root, bundle_present, workspace_present) {
        Ok(executable) => Ok(launch_plan_of(root, executable, interpreter, port, secret)),
        Err(e) => Err(e),
    }
}

/// Where neither candidate is present nothing is started: there is no
/// plan, whatever the interpreter, the port and the secret.
pub proof fn lemma_no_candidate_no_plan(
    root: Seq<char>,
    interpreter: Seq<char>,
    port: nat,
    secret: Seq<char>,
)
    ensures
        planned_launch(root, false, false, interpreter, port, secret) == Err::<
            LaunchPlanView,
            LaunchError,
        >(LaunchError::ExecutableNotFound),
{
}

/// A plan is made exactly where a candidate is present. It starts the
/// bundled executable where the bundle is present, whether or not the
/// workspace's is, and the workspace's otherwise.
pub proof fn lemma_first_candidate_wins(
    root: Seq<char>,
    bundle_present: bool,
    workspace_present: bool,
    interpreter: Seq<char>,
    port: nat,
    secret: Seq<char>,
)
    ensures
        planned_launch(root, bundle_present, workspace_present, interpreter, port, secret) is Ok
            <==> bundle_present || workspace_present,
        bundle_present ==> planned_launch(
            root,
            bundle_present,
            workspace_present,
            interpreter,
            port,
            secret,
        ) == Ok::<LaunchPlanView, LaunchError>(
            launch_plan_of(root, bundled_executable_text(root), interpreter, port, secret),
        ),
        !bundle_present && workspace_present ==> planned_launch(
            root,
            bundle_present,
            workspace_present,
            interpreter,
            port,
            secret,
        ) == Ok::<LaunchPlanView, LaunchError>(
            launch_plan_of(root, workspace_executable_text(root), interpreter, port, secret),
        ),
{
}

/// The name under which the interpreter is looked up.
pub fn interpreter_name() -> (name: &'static str)
    ensures
        name@ == "node"@,
{
    "node"
}

/// The directory whose presence decides for the bundled backend.
pub fn bundle_dir(root: &str) -> (dir: String)
    ensures
        dir@ == bundle_dir_text(root@),
{
    join_path(root, "compiled")
}

/// The first candidate location of the backend executable.
pub fn bundled_executable(root: &str) -> (path: String)
    ensures
        path@ == bundled_executable_text(root@),
{
    let dir = bundle_dir(root);
    join_path(dir.as_str(), "node_modules/.bin/n8n")
}

/// The second candidate location of the backend executable.
pub fn workspace_executable(root: &str) -> (path: String)
    ensures
        path@ == workspace_executable_text(root@),
{
    join_path(root, "packages/cli/bin/n8n")
}

/// Chooses the backend executable below `root`. `bundle_present` says
/// whether the bundle directory exists, `workspace_present` whether the
/// workspace's executable does. The bundle is preferred; with neither
/// present there is nothing to start.
pub fn resolve_executable(root: &str, bundle_present: bool, workspace_present: bool) -> (r: Result<
    String,
    LaunchError,
>)
    ensures
        match r {
            Ok(path) => resolved_executable(root@, bundle_present, workspace_present) == Ok::<
                Seq<char>,
                LaunchError,
            >(path@),
            Err(e) => resolved_executable(root@, bundle_present, workspace_present) == Err::<
                Seq<char>,
                LaunchError,
            >(e),
        },
{
    if bundle_present {
        Ok(bundled_executable(root))
    } else if workspace_present {
        Ok(workspace_executable(root))
    } else {
        Err(LaunchError::ExecutableNotFound)
    }
}

/// Calls `which::which` for `name` and hands back the path it found as text
/// (names that are not Unicode are rendered lossily), or `None` where it
/// reported an error. What it finds depends on the search path and on the
/// files on disk, so nothing is claimed of the result.
#[verifier::external_body]
fn find_on_search_path(name: &str) -> (found: Option<String>) {
    which::which(name).ok().map(|p| p.to_string_lossy().into_owned())
}

/// Picks the interpreter out of a lookup's result: the path that was found,
/// or the bare `name`, with which process creation is left to fail.
pub fn interpreter_or_name(found: Option<String>, name: &str) -> (program: String)
    ensures
        program@ == resolved_interpreter(
            match found {
                Some(p) => Some(p@),
                None => None,
            },
            name@,
        ),
{
    match found {
        Some(path) => path,
        None => String::from_str(name),
    }
}

/// Looks the interpreter up on the search path; the result is the path of
/// an executable, or the interpreter's bare name.
pub fn resolve_interpreter() -> (program: String) {
    let name = interpreter_name();
    interpreter_or_name(find_on_search_path(name), name)
}

fn env_var(name: &str, value: String) -> (v: EnvVar)
    ensures
        v@ == (name@, value@),
{
    EnvVar { name: String::from_str(name), value }
}

/// The environment of the backend: its port, the loopback address it binds
/// to, its host name and protocol, and the secret it encrypts with.
pub fn launch_environment(port: u16, secret: &str) -> (env: Vec<EnvVar>)
    ensures
        env@.map_values(|v: EnvVar| v@) == launch_env_text(port as nat, secret@),
{
    let mut env: Vec<EnvVar> = Vec::new();
    env.push(env_var("N8N_PORT", decimal_text(port as u64)));
    env.push(env_var("N8N_LISTEN_ADDRESS", String::from_str("127.0.0.1")));
    env.push(env_var("N8N_HOST", String::from_str("localhost")));
    env.push(env_var("N8N_PROTOCOL", String::from_str("http")));
    env.push(env_var("N8N_ENCRYPTION_KEY", String::from_str(secret)));
    env
}

/// Plans the start of the backend below the application root `root`, on
/// `port` and with `secret`, under the interpreter `interpreter`. No plan
/// is made where neither candidate executable is present.
pub fn plan_launch(
    root: &str,
    bundle_present: bool,
    workspace_present: bool,
    interpreter: String,
    port: u16,
    secret: &str,
) -> (r: Result<LaunchPlan, LaunchError>)
    ensures
        match r {
            Ok(plan) => planned_launch(
                root@,
                bundle_present,
                workspace_present,
                interpreter@,
                port as nat,
                secret@,
            ) == Ok::<LaunchPlanView, LaunchError>(plan@),
            Err(e) => planned_launch(
                root@,
                bundle_present,
                workspace_present,
                interpreter@,
                port as nat,
                secret@,
            ) == Err::<LaunchPlanView, LaunchError>(e),
        },
{
    match resolve_executable(root, bundle_present, workspace_present) {
        Ok(executable) => {
            let ghost exe = executable@;
            let mut args: Vec<String> = Vec::new();
            args.push(executable);
            args.push(String::from_str("start"));
            assert(args@.map_values(|a: String| a@) =~= seq![exe, "start"@]);
            let plan = LaunchPlan {
                program: interpreter,
                args,
                env: launch_environment(port, secret),
                working_dir: String::from_str(root),
                stdin: StreamPlan::Closed,
                stdout: StreamPlan::Drained,
                stderr: StreamPlan::Drained,
                settle_delay_ms: SETTLE_DELAY_MS,
            };
            Ok(plan)
        },
        Err(e) => Err(e),
    }
}

/// Plans the start of the backend as `plan_launch` does, under the
/// interpreter that is found on the search path, or under its bare name
/// where none is found. The plan is that of some interpreter; whether there
/// is a plan depends on the candidates alone.
pub fn prepare_launch(
    root: &str,
    bundle_present: bool,
    workspace_present: bool,
    port: u16,
    secret: &str,
) -> (r: Result<LaunchPlan, LaunchError>)
    ensures
        r is Ok <==> bundle_present || workspace_present,
        r matches Err(e) ==> e == LaunchError::ExecutableNotFound,
        r matches Ok(plan) ==> exists|interpreter: Seq<char>| #[trigger]
            planned_launch(
                root@,
                bundle_present,
                workspace_present,
                interpreter,
                port as nat,
                secret@,
            ) == Ok::<LaunchPlanView, LaunchError>(plan@),
{
    let interpreter = resolve_interpreter();
    plan_launch(root, bundle_present, workspace_present, interpreter, port, secret)
}

} // verus!
