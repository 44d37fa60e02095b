//! The container's launch specification, built from the caller's working
//! directory and command-line arguments.
use vstd::prelude::*;
use vstd::string::StringExecFns;

verus! {

/// The image every run uses.
pub const IMAGE: &'static str = "l.gcr.io/google/bazel:latest";

/// Where the host working directory appears inside the container; also the
/// command's working directory there.
pub const WORKSPACE_DIR: &'static str = "/src/workspace";

/// The host scratch directory for the build tool's caches. It is mounted at
/// the same path inside the container and must exist before the run starts.
pub const CACHE_DIR: &'static str = "/tmp/build_output";

/// The first argument of every command: points the build tool's output root
/// at the mounted scratch directory.
pub const CACHE_ROOT_FLAG: &'static str = "--output_user_root=/tmp/build_output";

/// Everything needed to create the container.
pub struct RunConfig {
    pub image: String,
    pub working_dir: String,
    /// Bind mounts, each written `host:container`.
    pub volumes: Vec<String>,
    pub cmd: Vec<String>,
    pub attach_stdin: bool,
    pub attach_stdout: bool,
    pub attach_stderr: bool,
    pub tty: bool,
    pub privileged: bool,
}

pub struct RunConfigView {
    pub image: Seq<char>,
    pub working_dir: Seq<char>,
    pub volumes: Seq<Seq<char>>,
    pub cmd: Seq<Seq<char>>,
    pub attach_stdin: bool,
    pub attach_stdout: bool,
    pub attach_stderr: bool,
    pub tty: bool,
    pub privileged: bool,
}

pub open spec fn strings_view(v: Seq<String>) -> Seq<Seq<char>> {
    v.map_values(|s: String| s@)
}

impl View for RunConfig {
    type V = RunConfigView;

    open spec fn view(&self) -> RunConfigView {
        RunConfigView {
            image: self.image@,
            working_dir: self.working_dir@,
            volumes: strings_view(self.volumes@),
            cmd: strings_view(self.cmd@),
            attach_stdin: self.attach_stdin,
            attach_stdout: self.attach_stdout,
            attach_stderr: self.attach_stderr,
            tty: self.tty,
            privileged: self.privileged,
        }
    }
}

/// A bind mount of `host` at `target`, in the runtime's `host:target` form.
pub open spec fn bind_spec(host: Seq<char>, target: Seq<char>) -> Seq<char> {
    host + ":"@ + target
}

/// The configuration for working directory `cwd` and command arguments
/// `args`: the working directory is mounted at the workspace path, the
/// scratch directory at its own path, and the command is the cache-root flag
/// followed by the arguments exactly as given.
pub open spec fn run_config_spec(cwd: Seq<char>, args: Seq<Seq<char>>) -> RunConfigView {
    RunConfigView {
        image: IMAGE@,
        working_dir: WORKSPACE_DIR@,
        volumes: seq![bind_spec(cwd, WORKSPACE_DIR@), bind_spec(CACHE_DIR@, CACHE_DIR@)],
        cmd: seq![CACHE_ROOT_FLAG@] + args,
        attach_stdin: true,
        attach_stdout: true,
        attach_stderr: true,
        tty: true,
        privileged: true,
    }
}

fn bind(host: &str, target: &str) -> (r: String)
    ensures
        r@ == bind_spec(host@, target@),
{
    let mut s = String::from_str(host);
    s.append(":");
    s.append(target);
    s
}

/// Builds the launch specification for a run in `cwd` with command
/// arguments `args`. Arguments are passed through verbatim.
pub fn build_run_config(cwd: &str, args: &Vec<String>) -> (r: RunConfig)
    ensures
        r@ == run_config_spec(cwd@, strings_view(args@)),
{
    let mut volumes: Vec<String> = Vec::new();
    volumes.push(bind(cwd, WORKSPACE_DIR));
    volumes.push(bind(CACHE_DIR, CACHE_DIR));
    let mut cmd: Vec<String> = Vec::new();
    cmd.push(String::from_str(CACHE_ROOT_FLAG));
    let mut i: usize = 0;
    while i < args.len()
        invariant
            i <= args.len(),
            cmd@.len() == i + 1,
            cmd@[0]@ == CACHE_ROOT_FLAG@,
            forall|j: int| 1 <= j <= i ==> #[trigger] cmd@[j]@ == args@[j - 1]@,
        decreases args.len() - i,
    {
        cmd.push(args[i].clone());
        i = i + 1;
    }
    let r = RunConfig {
        image: String::from_str(IMAGE),
        working_dir: String::from_str(WORKSPACE_DIR),
        volumes,
        cmd,
        attach_stdin: true,
        attach_stdout: true,
        attach_stderr: true,
        tty: true,
        privileged: true,
    };
    assert(strings_view(r.volumes@) =~= run_config_spec(cwd@, strings_view(args@)).volumes);
    assert(strings_view(r.cmd@) =~= run_config_spec(cwd@, strings_view(args@)).cmd);
    r
}

} // verus!
