//! Resolution of the command that starts the backend service.
use vstd::prelude::*;

verus! {

/// TCP port on which the backend service listens.
pub const BACKEND_PORT: u16 = 8008;

/// Where the launch paths come from.
#[derive(Clone, Copy, Debug, PartialEq, Eq, Structural)]
pub enum LaunchMode {
    /// Run the backend from its source tree through the package manager.
    Development,
    /// Run the bundled backend executable from the resource directory.
    Packaged,
}

/// How the supervised process can be signalled on this platform.
#[derive(Clone, Copy, Debug, PartialEq, Eq, Structural)]
pub enum SignalScope {
    /// The child leads a new session and process group, which is signalled as a whole.
    Group,
    /// The child is a plain process; only it can be signalled, not its descendants.
    Single,
}

/// Why the backend process could not be started.
#[derive(Clone, Copy, Debug, PartialEq, Eq, Structural)]
pub enum SpawnFailure {
    /// The executable was not found.
    NotFound,
    /// The executable exists but may not be executed.
    NotExecutable,
    /// The operating system refused to create the process.
    Os,
}

/// A failed launch, with the operating system's own description.
#[derive(Debug)]
pub struct SpawnError {
    pub kind: SpawnFailure,
    pub reason: String,
}

/// An immutable description of how to start the backend process.
#[derive(Debug)]
pub struct LaunchConfig {
    pub mode: LaunchMode,
    /// Executable path or command name.
    pub program: String,
    pub args: Vec<String>,
    pub working_dir: String,
    /// Whether the child is made the leader of a new session and process group.
    pub new_process_group: bool,
    /// Whether standard output and error go to pipes held by the parent.
    pub capture_output: bool,
}

/// The text of each string of a vector.
pub open spec fn texts(v: Seq<String>) -> Seq<Seq<char>> {
    v.map_values(|s: String| s@)
}

/// The package-manager command used in development.
pub open spec fn dev_program() -> Seq<char> {
    "uv"@
}

/// Arguments of the development command: run the server tool on the entry point,
/// bound to the backend address, with reloading.
pub open spec fn dev_args() -> Seq<Seq<char>> {
    seq![
        "run"@,
        "uvicorn"@,
        "main:app"@,
        "--host"@,
        "127.0.0.1"@,
        "--port"@,
        "8008"@,
        "--reload"@,
    ]
}

/// Arguments of the bundled executable: bound to the backend address.
pub open spec fn packaged_args() -> Seq<Seq<char>> {
    seq!["--host"@, "127.0.0.1"@, "--port"@, "8008"@]
}

/// Name of the backend directory, in the source tree and among the resources.
pub open spec fn backend_dir_name() -> Seq<char> {
    "backend"@
}

/// File name of the bundled backend executable.
pub open spec fn backend_exe_name() -> Seq<char> {
    "mnemosyne-backend"@
}

/// The path that `std::path::Path::join` makes of a base and a relative part.
pub uninterp spec fn joined_path(base: Seq<char>, part: Seq<char>) -> Seq<char>;

/// Relies on `std::path::Path::join`: the joined path, read back as text.
/// Both inputs are UTF-8, so the text conversion loses nothing.
#[verifier::external_body]
fn join_path(base: &str, part: &str) -> (r: String)
    ensures
        r@ == joined_path(base@, part@),
{
    std::path::Path::new(base).join(part).to_string_lossy().into_owned()
}

fn string_vec(items: &[&str]) -> (r: Vec<String>)
    ensures
        texts(r@) == items@.map_values(|s: &str| s@),
{
    let mut r: Vec<String> = Vec::new();
    let mut i: usize = 0;
    while i < items.len()
        invariant
            i <= items@.len(),
            r@.len() == i,
            forall|j: int| 0 <= j < i ==> r@[j]@ == items@[j]@,
        decreases items@.len() - i,
    {
        r.push(items[i].to_owned());
        i = i + 1;
    }
    proof {
        assert(texts(r@) =~= items@.map_values(|s: &str| s@));
    }
    r
}

impl LaunchConfig {
    /// Development launch: the package manager runs the backend from its source
    /// tree, with the working directory set to that tree.
    pub fn development(backend_src_dir: &str, scope: SignalScope) -> (r: LaunchConfig)
        ensures
            r.mode == LaunchMode::Development,
            r.program@ == dev_program(),
            texts(r.args@) == dev_args(),
            r.working_dir@ == backend_src_dir@,
            r.new_process_group == (scope == SignalScope::Group),
            r.capture_output,
    {
        let items = ["run", "uvicorn", "main:app", "--host", "127.0.0.1", "--port", "8008", "--reload"];
        let args = string_vec(&items);
        proof {
            assert(texts(args@) =~= dev_args());
        }
        LaunchConfig {
            mode: LaunchMode::Development,
            program: "uv".to_owned(),
            args,
            working_dir: backend_src_dir.to_owned(),
            new_process_group: scope == SignalScope::Group,
            capture_output: true,
        }
    }

    /// Packaged launch from an already resolved backend directory and executable:
    /// the executable runs with the working directory set to that directory.
    pub fn packaged_in(backend_dir: String, executable: String, scope: SignalScope) -> (r: LaunchConfig)
        ensures
            r.mode == LaunchMode::Packaged,
            r.program@ == executable@,
            texts(r.args@) == packaged_args(),
            r.working_dir@ == backend_dir@,
            r.new_process_group == (scope == SignalScope::Group),
            r.capture_output,
    {
        let items = ["--host", "127.0.0.1", "--port", "8008"];
        let args = string_vec(&items);
        proof {
            assert(texts(args@) =~= packaged_args());
        }
        LaunchConfig {
            mode: LaunchMode::Packaged,
            program: executable,
            args,
            working_dir: backend_dir,
            new_process_group: scope == SignalScope::Group,
            capture_output: true,
        }
    }

    /// Packaged launch: the bundled executable in the backend subdirectory of the
    /// resource directory, run from that subdirectory.
    pub fn packaged(resource_dir: &str, scope: SignalScope) -> (r: LaunchConfig)
        ensures
            r.mode == LaunchMode::Packaged,
            r.program@ == joined_path(packaged_dir(resource_dir@), backend_exe_name()),
            texts(r.args@) == packaged_args(),
            r.working_dir@ == packaged_dir(resource_dir@),
            r.new_process_group == (scope == SignalScope::Group),
            r.capture_output,
    {
        let dir = join_path(resource_dir, "backend");
        let exe = join_path(dir.as_str(), "mnemosyne-backend");
        LaunchConfig::packaged_in(dir, exe, scope)
    }
}

/// The backend directory among the resources.
pub open spec fn packaged_dir(resource_dir: Seq<char>) -> Seq<char> {
    joined_path(resource_dir, backend_dir_name())
}

/// The backend source tree inside the project root.
pub fn backend_source_dir(project_root: &str) -> (r: String)
    ensures
        r@ == joined_path(project_root@, backend_dir_name()),
{
    join_path(project_root, "backend")
}

} // verus!
