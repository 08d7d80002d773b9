//! The fixed candidate locations of the `docker` and `docker-compose`
//! binaries, and the exact command lines the launcher runs against them.
//!
//! Desktop applications on macOS do not inherit the shell's `PATH`, so every
//! binary is probed first by bare name and then at a short, documented list
//! of absolute fallback locations, in order.

use vstd::prelude::*;

verus! {

use vstd::string::StringExecFns;
use crate::text::views_of;

/// One subprocess invocation: a program, its arguments, the working
/// directory to run it in (when one is required), and the deadline the
/// caller must enforce on it, in seconds.
#[derive(Debug)]
pub struct CmdRequest {
    pub program: String,
    pub args: Vec<String>,
    pub dir: Option<String>,
    pub timeout_secs: u64,
}

/// The candidate `docker` locations probed by the installation check,
/// in order.
pub open spec fn docker_probe_list() -> Seq<Seq<char>> {
    seq![
        "docker"@,
        "/usr/local/bin/docker"@,
        "/opt/homebrew/bin/docker"@,
        "/Applications/Docker.app/Contents/Resources/bin/docker"@,
    ]
}

/// The candidate `docker` locations probed by the service check, in order:
/// the installation check's list followed by the Windows location.
pub open spec fn docker_locate_list() -> Seq<Seq<char>> {
    docker_probe_list().push("C:\\Program Files\\Docker\\Docker\\resources\\bin\\docker.exe"@)
}

/// The candidate `docker-compose` locations, in order.
pub open spec fn compose_probe_list() -> Seq<Seq<char>> {
    seq![
        "docker-compose"@,
        "/usr/local/bin/docker-compose"@,
        "/opt/homebrew/bin/docker-compose"@,
        "C:\\Program Files\\Docker\\Docker\\resources\\bin\\docker-compose.exe"@,
        "C:\\ProgramData\\DockerDesktop\\version-bin\\docker-compose.exe"@,
    ]
}

/// The `docker` candidates for the installation check, as runnable strings.
pub fn docker_probe_paths() -> (r: Vec<String>)
    ensures
        views_of(r@) == docker_probe_list(),
{
    let mut r: Vec<String> = Vec::new();
    r.push("docker".to_owned());
    r.push("/usr/local/bin/docker".to_owned());
    r.push("/opt/homebrew/bin/docker".to_owned());
    r.push("/Applications/Docker.app/Contents/Resources/bin/docker".to_owned());
    proof {
        assert(views_of(r@) =~= docker_probe_list());
    }
    r
}

/// The `docker` candidates for the service check, as runnable strings.
pub fn docker_locate_paths() -> (r: Vec<String>)
    ensures
        views_of(r@) == docker_locate_list(),
{
    let mut r = docker_probe_paths();
    r.push("C:\\Program Files\\Docker\\Docker\\resources\\bin\\docker.exe".to_owned());
    proof {
        assert(views_of(r@) =~= docker_locate_list());
    }
    r
}

/// The `docker-compose` candidates, as runnable strings.
pub fn compose_probe_paths() -> (r: Vec<String>)
    ensures
        views_of(r@) == compose_probe_list(),
{
    let mut r: Vec<String> = Vec::new();
    r.push("docker-compose".to_owned());
    r.push("/usr/local/bin/docker-compose".to_owned());
    r.push("/opt/homebrew/bin/docker-compose".to_owned());
    r.push("C:\\Program Files\\Docker\\Docker\\resources\\bin\\docker-compose.exe".to_owned());
    r.push("C:\\ProgramData\\DockerDesktop\\version-bin\\docker-compose.exe".to_owned());
    proof {
        assert(views_of(r@) =~= compose_probe_list());
    }
    r
}

/// `<program> --version`: does the binary exist and answer at all?
pub fn version_request(program: &str, timeout_secs: u64) -> (r: CmdRequest)
    ensures
        r.program@ == program@,
        views_of(r.args@) == seq!["--version"@],
        r.dir is None,
        r.timeout_secs == timeout_secs,
{
    let mut args: Vec<String> = Vec::new();
    args.push("--version".to_owned());
    proof {
        assert(views_of(args@) =~= seq!["--version"@]);
    }
    CmdRequest { program: program.to_owned(), args, dir: None, timeout_secs }
}

/// `<program> ps`: does the Docker daemon answer?
pub fn daemon_request(program: &str, timeout_secs: u64) -> (r: CmdRequest)
    ensures
        r.program@ == program@,
        views_of(r.args@) == seq!["ps"@],
        r.dir is None,
        r.timeout_secs == timeout_secs,
{
    let mut args: Vec<String> = Vec::new();
    args.push("ps".to_owned());
    proof {
        assert(views_of(args@) =~= seq!["ps"@]);
    }
    CmdRequest { program: program.to_owned(), args, dir: None, timeout_secs }
}

/// `<program> images n8nio/n8n --format {{.Repository}}`: are the n8n
/// images present locally?
pub fn images_request(program: &str, timeout_secs: u64) -> (r: CmdRequest)
    ensures
        r.program@ == program@,
        views_of(r.args@) == seq!["images"@, "n8nio/n8n"@, "--format"@, "{{.Repository}}"@],
        r.dir is None,
        r.timeout_secs == timeout_secs,
{
    let mut args: Vec<String> = Vec::new();
    args.push("images".to_owned());
    args.push("n8nio/n8n".to_owned());
    args.push("--format".to_owned());
    args.push("{{.Repository}}".to_owned());
    proof {
        assert(views_of(args@) =~= seq!["images"@, "n8nio/n8n"@, "--format"@, "{{.Repository}}"@]);
    }
    CmdRequest { program: program.to_owned(), args, dir: None, timeout_secs }
}

/// `<program> ps --filter name=n8n --format {{.Names}}`: which n8n
/// containers are running?
pub fn running_containers_request(program: &str, timeout_secs: u64) -> (r: CmdRequest)
    ensures
        r.program@ == program@,
        views_of(r.args@) == seq!["ps"@, "--filter"@, "name=n8n"@, "--format"@, "{{.Names}}"@],
        r.dir is None,
        r.timeout_secs == timeout_secs,
{
    let mut args: Vec<String> = Vec::new();
    args.push("ps".to_owned());
    args.push("--filter".to_owned());
    args.push("name=n8n".to_owned());
    args.push("--format".to_owned());
    args.push("{{.Names}}".to_owned());
    proof {
        assert(views_of(args@) =~= seq![
            "ps"@,
            "--filter"@,
            "name=n8n"@,
            "--format"@,
            "{{.Names}}"@,
        ]);
    }
    CmdRequest { program: program.to_owned(), args, dir: None, timeout_secs }
}

/// `<program> ps -a --filter name=n8n --format {{.Names}}`: which n8n
/// containers exist, running or stopped?
pub fn all_containers_request(program: &str, timeout_secs: u64) -> (r: CmdRequest)
    ensures
        r.program@ == program@,
        views_of(r.args@) == seq!["ps"@, "-a"@, "--filter"@, "name=n8n"@, "--format"@, "{{.Names}}"@],
        r.dir is None,
        r.timeout_secs == timeout_secs,
{
    let mut args: Vec<String> = Vec::new();
    args.push("ps".to_owned());
    args.push("-a".to_owned());
    args.push("--filter".to_owned());
    args.push("name=n8n".to_owned());
    args.push("--format".to_owned());
    args.push("{{.Names}}".to_owned());
    proof {
        assert(views_of(args@) =~= seq![
            "ps"@,
            "-a"@,
            "--filter"@,
            "name=n8n"@,
            "--format"@,
            "{{.Names}}"@,
        ]);
    }
    CmdRequest { program: program.to_owned(), args, dir: None, timeout_secs }
}

} // verus!
