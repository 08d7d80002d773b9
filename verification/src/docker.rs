//! The Docker installation check: probe each candidate `docker` binary with
//! `--version` in order, and at the first one that answers, ask the daemon
//! with `docker ps` at the same path. The result records whether a binary
//! was found, whether the daemon answered, and the reported version.

use vstd::prelude::*;

verus! {

use vstd::string::StringExecFns;
use crate::paths::{CmdRequest, daemon_request, docker_probe_list, docker_probe_paths, version_request};
use crate::status::DockerStatus;
use crate::text::{trim, trim_spec, views_of};

/// Where the check stands: probing binaries with `--version`, asking the
/// daemon at the binary that answered, or finished.
pub enum DockerPhase {
    Version,
    Daemon { version: String },
    Done { status: DockerStatus },
}

/// The installation check as a state machine. The caller runs the requested
/// command outside and reports how it went; the ghost `history` records the
/// outcome of every version probe made so far.
pub struct DockerCheck {
    pub paths: Vec<String>,
    pub idx: usize,
    pub phase: DockerPhase,
    pub history: Ghost<Seq<bool>>,
}

impl DockerCheck {
    /// The check's invariant: candidates are the fixed probe list, the
    /// version probes so far are recorded in order, the daemon is only ever
    /// asked at the first candidate whose version probe succeeded, and a
    /// finished check found a binary if and only if some probe succeeded.
    pub open spec fn wf(&self) -> bool {
        &&& views_of(self.paths@) == docker_probe_list()
        &&& self.history@.len() <= self.paths@.len()
        &&& match self.phase {
            DockerPhase::Version => {
                &&& self.idx == self.history@.len()
                &&& self.idx < self.paths@.len()
                &&& forall|k: int| 0 <= k < self.history@.len() ==> !self.history@[k]
            },
            DockerPhase::Daemon { .. } => {
                &&& self.idx < self.paths@.len()
                &&& self.history@.len() == self.idx + 1
                &&& self.history@[self.idx as int]
                &&& forall|k: int| 0 <= k < self.idx ==> !self.history@[k]
            },
            DockerPhase::Done { status } => {
                &&& (status.installed ==> exists|k: int|
                    0 <= k < self.history@.len() && self.history@[k])
                &&& (!status.installed ==> self.history@.len() == self.paths@.len() && forall|
                    k: int,
                |
                    0 <= k < self.history@.len() ==> !self.history@[k])
            },
        }
    }

    /// Start the check at the first candidate.
    pub fn new() -> (c: DockerCheck)
        ensures
            c.wf(),
            c.phase is Version,
            c.idx == 0,
            c.history@ == Seq::<bool>::empty(),
            views_of(c.paths@) == docker_probe_list(),
    {
        let paths = docker_probe_paths();
        proof {
            assert(views_of(paths@).len() == paths@.len());
            assert(docker_probe_list().len() == 4);
        }
        DockerCheck { paths, idx: 0, phase: DockerPhase::Version, history: Ghost(Seq::empty()) }
    }

    /// The command to run next: `--version` at the current candidate while
    /// probing, `ps` at the found binary while asking the daemon, nothing
    /// once finished. Either command gets a five-second deadline, so a
    /// hanging binary cannot stall the check.
    pub fn request(&self) -> (r: Option<CmdRequest>)
        requires
            self.wf(),
        ensures
            self.phase is Version ==> (r matches Some(q) && q.program@ == self.paths@[
                self.idx as int
            ]@ && views_of(q.args@) == seq!["--version"@] && q.dir is None && q.timeout_secs
                == 5),
            self.phase is Daemon ==> (r matches Some(q) && q.program@ == self.paths@[
                self.idx as int
            ]@ && views_of(q.args@) == seq!["ps"@] && q.dir is None && q.timeout_secs == 5),
            self.phase is Done ==> r is None,
    {
        match &self.phase {
            DockerPhase::Version => Some(version_request(self.paths[self.idx].as_str(), 5)),
            DockerPhase::Daemon { .. } => Some(daemon_request(self.paths[self.idx].as_str(), 5)),
            DockerPhase::Done { .. } => None,
        }
    }

    /// Report how the version probe at the current candidate went:
    /// `success` means the command ran and exited successfully, and
    /// `stdout` is what it printed. On success the check keeps the trimmed
    /// output as the version and turns to the daemon; on failure it moves
    /// to the next candidate, and past the last one it finishes with
    /// "not installed".
    pub fn on_version_outcome(&mut self, success: bool, stdout: &str)
        requires
            old(self).wf(),
            old(self).phase is Version,
        ensures
            final(self).wf(),
            final(self).paths == old(self).paths,
            final(self).history@ == old(self).history@.push(success),
            success ==> (final(self).phase matches DockerPhase::Daemon { version } && version@
                == trim_spec(stdout@) && final(self).idx == old(self).idx),
            !success && old(self).idx + 1 < old(self).paths@.len() ==> (final(self).phase
                is Version && final(self).idx == old(self).idx + 1),
            !success && old(self).idx + 1 == old(self).paths@.len() ==> (final(self).phase
                matches DockerPhase::Done { status } && status.installed == false
                && status.running == false && status.version is None),
    {
        proof {
            self.history@ = self.history@.push(success);
        }
        if success {
            let v = trim(stdout).to_owned();
            self.phase = DockerPhase::Daemon { version: v };
        } else {
            let n = self.paths.len();
            self.idx += 1;
            if self.idx == n {
                self.phase = DockerPhase::Done {
                    status: DockerStatus { installed: false, running: false, version: None },
                };
            }
        }
    }

    /// Report whether `docker ps` at the found binary succeeded. The check
    /// finishes: the binary is installed, the daemon is running exactly
    /// when `ps` succeeded, and the version is the one kept earlier.
    pub fn on_daemon_outcome(&mut self, running: bool)
        requires
            old(self).wf(),
            old(self).phase is Daemon,
        ensures
            final(self).wf(),
            final(self).paths == old(self).paths,
            final(self).history@ == old(self).history@,
            old(self).phase matches DockerPhase::Daemon { version } ==> (final(self).phase
                matches DockerPhase::Done { status } && status.installed == true
                && status.running == running && (status.version matches Some(v) && v@
                == version@)),
    {
        let ver: String = match &self.phase {
            DockerPhase::Daemon { version } => version.clone(),
            _ => {
                proof {
                    assert(false);
                }
                String::new()
            },
        };
        self.phase = DockerPhase::Done {
            status: DockerStatus { installed: true, running, version: Some(ver) },
        };
    }
}

/// The installation check settles on the first candidate binary that
/// answers `--version` and ignores the ones after it: while the daemon is
/// being asked, every candidate before the chosen one failed its probe and
/// none after it was consulted; and a check that finished with "not
/// installed" probed every candidate and saw each fail.
pub proof fn lemma_first_working_candidate(c: DockerCheck)
    requires
        c.wf(),
    ensures
        c.phase is Daemon ==> {
            &&& c.history@[c.idx as int]
            &&& forall|k: int| 0 <= k < c.idx ==> !c.history@[k]
            &&& c.history@.len() == c.idx + 1
        },
        c.phase matches DockerPhase::Done { status } ==> (!status.installed ==> {
            &&& c.history@.len() == c.paths@.len()
            &&& forall|k: int| 0 <= k < c.history@.len() ==> !c.history@[k]
        }),
{
}

} // verus!
