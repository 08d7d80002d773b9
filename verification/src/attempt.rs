//! The retry loop shared by the compose operations: run the operation with
//! each candidate `docker-compose` binary in order, stop at the first
//! success, remember the last error, and give up with a report once every
//! candidate has failed.

use vstd::prelude::*;

verus! {

use vstd::string::StringExecFns;
use crate::paths::{CmdRequest, compose_probe_list, compose_probe_paths};
use crate::text::{i32_to_string, int_dec_spec, views_of};

/// The compose operations the launcher runs. `UpStreaming` is `Up` with
/// decorative progress messages emitted while the command runs; it differs
/// only in the messages reported.
#[derive(Clone, Copy, Debug, PartialEq, Eq)]
pub enum ComposeOp {
    Up,
    UpStreaming,
    Down,
    Logs,
}

/// How one subprocess attempt ended: the process completed (successfully or
/// not), it could not be launched at all, or it ran past its deadline.
#[derive(Debug)]
pub enum CmdOutcome {
    Completed { success: bool, exit_code: Option<i32>, stdout: String, stderr: String },
    LaunchFailed { message: String },
    TimedOut,
}

/// The arguments passed to `docker-compose` for each operation.
pub open spec fn op_args_list(op: ComposeOp) -> Seq<Seq<char>> {
    match op {
        ComposeOp::Up | ComposeOp::UpStreaming => seq!["up"@, "-d"@],
        ComposeOp::Down => seq!["down"@],
        ComposeOp::Logs => seq!["logs"@, "--tail=100"@],
    }
}

/// How long each operation may run, in seconds: five minutes for a start
/// (images may have to be pulled), one minute for a stop, ten seconds for
/// fetching logs.
pub open spec fn op_timeout_secs_spec(op: ComposeOp) -> int {
    match op {
        ComposeOp::Up | ComposeOp::UpStreaming => 300,
        ComposeOp::Down => 60,
        ComposeOp::Logs => 10,
    }
}

/// The error recorded when an attempt runs past its deadline.
pub open spec fn timeout_error_text(op: ComposeOp) -> Seq<char> {
    match op {
        ComposeOp::Up | ComposeOp::UpStreaming => "Command timed out after 5 minutes"@,
        ComposeOp::Down => "Command timed out after 1 minute"@,
        ComposeOp::Logs => "Command timed out after 10 seconds"@,
    }
}

/// The exit code reported for a failed process, with -1 standing in when
/// the process ended without one (for example on a signal).
pub open spec fn exit_code_or_default(code: Option<i32>) -> int {
    match code {
        Some(c) => c as int,
        None => -1,
    }
}

/// The error recorded when the process completed with a failure.
pub open spec fn completed_error_text(op: ComposeOp, code: Option<i32>, stderr: Seq<char>) -> Seq<
    char,
> {
    match op {
        ComposeOp::Up | ComposeOp::UpStreaming => "Command failed with exit code "@ + int_dec_spec(
            exit_code_or_default(code),
        ) + ": "@ + stderr,
        ComposeOp::Down | ComposeOp::Logs => "Command failed: "@ + stderr,
    }
}

/// The error recorded when the process could not be launched.
pub open spec fn launch_error_text(message: Seq<char>) -> Seq<char> {
    "Command execution error: "@ + message
}

/// The error recorded for a failed attempt, by how it failed. A successful
/// completion records no error.
pub open spec fn outcome_error_text(op: ComposeOp, o: CmdOutcome) -> Seq<char> {
    match o {
        CmdOutcome::Completed { success, exit_code, stdout, stderr } => if success {
            Seq::empty()
        } else {
            completed_error_text(op, exit_code, stderr@)
        },
        CmdOutcome::LaunchFailed { message } => launch_error_text(message@),
        CmdOutcome::TimedOut => timeout_error_text(op),
    }
}

/// The message reported when an operation succeeds. A plain start reports
/// the command's output, a streaming start and a stop report fixed
/// sentences, and a log fetch reports the logs themselves.
pub open spec fn success_text(op: ComposeOp, stdout: Seq<char>, stderr: Seq<char>) -> Seq<char> {
    match op {
        ComposeOp::Up => "N8N started successfully. Output: "@ + stdout + "\nErrors: "@ + stderr,
        ComposeOp::UpStreaming => "N8N started successfully with progress updates"@,
        ComposeOp::Down => "N8N stopped successfully"@,
        ComposeOp::Logs => stdout,
    }
}

/// The report when every candidate binary has failed: the operation's own
/// preamble followed by the last error seen.
pub open spec fn final_error_text(op: ComposeOp, last_error: Seq<char>) -> Seq<char> {
    match op {
        ComposeOp::Up => "Failed to start N8N. Last error: "@ + last_error,
        ComposeOp::UpStreaming => "Failed to start N8N with streaming. Last error: "@ + last_error,
        ComposeOp::Down => "Failed to stop N8N. Last error: "@ + last_error,
        ComposeOp::Logs => "Failed to get logs. Last error: "@ + last_error,
    }
}

/// The deadline for one attempt of `op`, in seconds.
pub fn op_timeout_secs(op: &ComposeOp) -> (t: u64)
    ensures
        t == op_timeout_secs_spec(*op),
{
    match op {
        ComposeOp::Up | ComposeOp::UpStreaming => 300,
        ComposeOp::Down => 60,
        ComposeOp::Logs => 10,
    }
}

fn op_args(op: &ComposeOp) -> (args: Vec<String>)
    ensures
        views_of(args@) == op_args_list(*op),
{
    let mut args: Vec<String> = Vec::new();
    match op {
        ComposeOp::Up | ComposeOp::UpStreaming => {
            args.push("up".to_owned());
            args.push("-d".to_owned());
            proof {
                assert(views_of(args@) =~= op_args_list(*op));
            }
        },
        ComposeOp::Down => {
            args.push("down".to_owned());
            proof {
                assert(views_of(args@) =~= op_args_list(*op));
            }
        },
        ComposeOp::Logs => {
            args.push("logs".to_owned());
            args.push("--tail=100".to_owned());
            proof {
                assert(views_of(args@) =~= op_args_list(*op));
            }
        },
    }
    args
}

fn success_message(op: &ComposeOp, stdout: &str, stderr: &str) -> (m: String)
    ensures
        m@ == success_text(*op, stdout@, stderr@),
{
    match op {
        ComposeOp::Up => "N8N started successfully. Output: ".to_owned().concat(stdout).concat(
            "\nErrors: ",
        ).concat(stderr),
        ComposeOp::UpStreaming => "N8N started successfully with progress updates".to_owned(),
        ComposeOp::Down => "N8N stopped successfully".to_owned(),
        ComposeOp::Logs => stdout.to_owned(),
    }
}

fn completed_error_message(op: &ComposeOp, code: &Option<i32>, stderr: &str) -> (m: String)
    ensures
        m@ == completed_error_text(*op, *code, stderr@),
{
    match op {
        ComposeOp::Up | ComposeOp::UpStreaming => {
            let code_val: i32 = match code {
                Some(c) => *c,
                None => -1,
            };
            "Command failed with exit code ".to_owned().concat(
                i32_to_string(code_val).as_str(),
            ).concat(": ").concat(stderr)
        },
        ComposeOp::Down | ComposeOp::Logs => "Command failed: ".to_owned().concat(stderr),
    }
}

fn timeout_error_message(op: &ComposeOp) -> (m: String)
    ensures
        m@ == timeout_error_text(*op),
{
    match op {
        ComposeOp::Up | ComposeOp::UpStreaming => "Command timed out after 5 minutes".to_owned(),
        ComposeOp::Down => "Command timed out after 1 minute".to_owned(),
        ComposeOp::Logs => "Command timed out after 10 seconds".to_owned(),
    }
}

fn outcome_error_message(op: &ComposeOp, o: &CmdOutcome) -> (m: String)
    requires
        !(o matches CmdOutcome::Completed { success: true, .. }),
    ensures
        m@ == outcome_error_text(*op, *o),
{
    match o {
        CmdOutcome::Completed { exit_code, stderr, .. } => completed_error_message(
            op,
            exit_code,
            stderr.as_str(),
        ),
        CmdOutcome::LaunchFailed { message } => "Command execution error: ".to_owned().concat(
            message.as_str(),
        ),
        CmdOutcome::TimedOut => timeout_error_message(op),
    }
}

fn final_error_message(op: &ComposeOp, last_error: &str) -> (m: String)
    ensures
        m@ == final_error_text(*op, last_error@),
{
    match op {
        ComposeOp::Up => "Failed to start N8N. Last error: ".to_owned().concat(last_error),
        ComposeOp::UpStreaming => "Failed to start N8N with streaming. Last error: ".to_owned()
            .concat(last_error),
        ComposeOp::Down => "Failed to stop N8N. Last error: ".to_owned().concat(last_error),
        ComposeOp::Logs => "Failed to get logs. Last error: ".to_owned().concat(last_error),
    }
}

/// The retry loop of one compose operation: candidates are tried in order,
/// the first success settles the result, and once every candidate has
/// failed the loop reports the last error seen. The ghost `history` records
/// whether each attempt made so far succeeded.
pub struct ComposeAttempt {
    pub op: ComposeOp,
    pub dir: String,
    pub paths: Vec<String>,
    pub next: usize,
    pub last_error: String,
    pub outcome: Option<Result<String, String>>,
    pub history: Ghost<Seq<bool>>,
}

impl ComposeAttempt {
    /// No result yet: a candidate remains to be tried.
    pub open spec fn active(&self) -> bool {
        self.outcome is None
    }

    /// The loop's invariant: the candidates are the fixed compose list, one
    /// attempt is recorded per candidate tried, a loop that settled with
    /// success did so at the first successful attempt, and one that settled
    /// with failure saw every attempt fail.
    pub open spec fn wf(&self) -> bool {
        &&& views_of(self.paths@) == compose_probe_list()
        &&& self.next <= self.paths@.len()
        &&& self.history@.len() <= self.paths@.len()
        &&& (self.active() ==> {
            &&& self.next < self.paths@.len()
            &&& self.next == self.history@.len()
            &&& forall|k: int| 0 <= k < self.history@.len() ==> !self.history@[k]
        })
        &&& match self.outcome {
            Some(Ok(_)) => {
                &&& self.history@.len() >= 1
                &&& self.history@[self.history@.len() - 1]
                &&& forall|k: int| 0 <= k < self.history@.len() - 1 ==> !self.history@[k]
            },
            Some(Err(_)) => {
                &&& self.history@.len() == self.paths@.len()
                &&& forall|k: int| 0 <= k < self.history@.len() ==> !self.history@[k]
            },
            None => true,
        }
    }

    /// Start the operation `op`, to run in the compose directory `dir`.
    pub fn new(op: ComposeOp, dir: String) -> (m: ComposeAttempt)
        ensures
            m.wf(),
            m.op == op,
            m.dir == dir,
            m.next == 0,
            m.outcome is None,
            m.last_error@ == Seq::<char>::empty(),
    {
        let paths = compose_probe_paths();
        proof {
            assert(views_of(paths@).len() == paths@.len());
            assert(compose_probe_list().len() == 5);
        }
        ComposeAttempt {
            op,
            dir,
            paths,
            next: 0,
            last_error: String::new(),
            outcome: None,
            history: Ghost(Seq::empty()),
        }
    }

    /// The command to run next: the current candidate binary with the
    /// operation's arguments, in the compose directory. `None` once the
    /// loop has settled.
    pub fn request(&self) -> (r: Option<CmdRequest>)
        requires
            self.wf(),
        ensures
            self.active() ==> (r matches Some(q) && q.program@ == self.paths@[self.next as int]@
                && views_of(q.args@) == op_args_list(self.op) && (q.dir matches Some(d) && d@
                == self.dir@) && q.timeout_secs == op_timeout_secs_spec(self.op)),
            !self.active() ==> r is None,
    {
        match &self.outcome {
            None => {
                let args = op_args(&self.op);
                let timeout_secs = op_timeout_secs(&self.op);
                Some(
                    CmdRequest {
                        program: self.paths[self.next].clone(),
                        args,
                        dir: Some(self.dir.clone()),
                        timeout_secs,
                    },
                )
            },
            Some(_) => None,
        }
    }

    /// Feed back how the current attempt ended. A successful completion
    /// settles the loop with the operation's success message; any failure
    /// records its error and moves to the next candidate, and the last
    /// candidate's failure settles the loop with the final report.
    pub fn record(&mut self, result: CmdOutcome)
        requires
            old(self).wf(),
            old(self).active(),
        ensures
            final(self).wf(),
            final(self).op == old(self).op,
            final(self).dir == old(self).dir,
            final(self).paths == old(self).paths,
            final(self).history@ == old(self).history@.push(
                result matches CmdOutcome::Completed { success: true, .. },
            ),
            result matches CmdOutcome::Completed { success: true, stdout, stderr, .. } ==> (
            final(self).outcome matches Some(Ok(m)) && m@ == success_text(
                old(self).op,
                stdout@,
                stderr@,
            ) && final(self).next == old(self).next),
            !(result matches CmdOutcome::Completed { success: true, .. }) ==> {
                &&& final(self).last_error@ == outcome_error_text(old(self).op, result)
                &&& (old(self).next + 1 < old(self).paths@.len() ==> (final(self).outcome is None
                    && final(self).next == old(self).next + 1))
                &&& (old(self).next + 1 == old(self).paths@.len() ==> (final(self).outcome
                    matches Some(Err(e)) && e@ == final_error_text(
                    old(self).op,
                    outcome_error_text(old(self).op, result),
                ) && final(self).next == old(self).next))
            },
    {
        proof {
            self.history@ = self.history@.push(
                result matches CmdOutcome::Completed { success: true, .. },
            );
        }
        match result {
            CmdOutcome::Completed { success: true, stdout, stderr, .. } => {
                let msg = success_message(&self.op, stdout.as_str(), stderr.as_str());
                self.outcome = Some(Ok(msg));
            },
            other => {
                let err = outcome_error_message(&self.op, &other);
                let n = self.paths.len();
                if self.next + 1 < n {
                    self.next += 1;
                    self.last_error = err;
                } else {
                    let report = final_error_message(&self.op, err.as_str());
                    self.last_error = err;
                    self.outcome = Some(Err(report));
                }
            },
        }
    }
}

/// The retry loop settles on the first candidate binary whose attempt
/// succeeds and never consults the ones after it: a loop that ended with
/// success saw every earlier attempt fail and its last attempt succeed,
/// and one that ended with failure tried every candidate and saw each
/// attempt fail.
pub proof fn lemma_first_successful_attempt(m: ComposeAttempt)
    requires
        m.wf(),
    ensures
        m.outcome matches Some(Ok(_)) ==> {
            &&& m.history@.len() >= 1
            &&& m.history@[m.history@.len() - 1]
            &&& forall|k: int| 0 <= k < m.history@.len() - 1 ==> !m.history@[k]
        },
        m.outcome matches Some(Err(_)) ==> {
            &&& m.history@.len() == m.paths@.len()
            &&& forall|k: int| 0 <= k < m.history@.len() ==> !m.history@[k]
        },
{
}

} // verus!
