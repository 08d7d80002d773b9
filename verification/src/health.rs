//! The layered n8n service check: find a working `docker` binary, ask
//! whether the n8n images are present, whether n8n containers are running,
//! whether any exist at all, and finally probe the service's HTTP health
//! endpoints. Each layer degrades gracefully: a failed prerequisite ends the
//! check with "not running", and only a healthy HTTP answer reports the
//! service as running.

use vstd::prelude::*;

verus! {

use vstd::string::StringExecFns;
use crate::paths::{
    CmdRequest,
    all_containers_request,
    docker_locate_list,
    docker_locate_paths,
    images_request,
    running_containers_request,
    version_request,
};
use crate::status::N8NStatus;
use crate::text::{contains_seq, contains_str, trim, trim_spec, views_of};

/// An HTTP status that counts as "the service is up": any success status,
/// or 401 (the service answers but wants credentials).
pub open spec fn healthy_status(code: u16) -> bool {
    (200 <= code && code < 300) || code == 401
}

/// A probe answer that counts as healthy: the request got a response and
/// its status is healthy. `None` stands for a request that got no response.
pub open spec fn healthy_response(response: Option<u16>) -> bool {
    match response {
        Some(code) => healthy_status(code),
        None => false,
    }
}

/// Does this HTTP status code report the service as up?
pub fn is_healthy_http_status(code: u16) -> (b: bool)
    ensures
        b == healthy_status(code),
{
    (200 <= code && code < 300) || code == 401
}

/// The port the service is probed on: the configured value when one is
/// given, 5678 otherwise.
pub open spec fn port_spec(env_value: Option<String>) -> Seq<char> {
    match env_value {
        Some(v) => v@,
        None => "5678"@,
    }
}

/// Resolve the probe port from the configured value, if any.
pub fn effective_port(env_value: Option<String>) -> (p: String)
    ensures
        p@ == port_spec(env_value),
{
    match env_value {
        Some(v) => v,
        None => "5678".to_owned(),
    }
}

/// The base URL of the local service on the given port.
pub open spec fn localhost_base(port: Seq<char>) -> Seq<char> {
    "http://localhost:"@ + port
}

/// The health endpoints probed, in order: the health check route, the API
/// health route, and the root.
pub open spec fn health_endpoint_list(port: Seq<char>) -> Seq<Seq<char>> {
    seq![
        localhost_base(port) + "/healthz"@,
        localhost_base(port) + "/api/v1/health"@,
        localhost_base(port),
    ]
}

/// The deadline of each HTTP health probe, in seconds.
pub fn http_timeout_secs() -> (t: u64)
    ensures
        t == 3,
{
    3
}

/// The health endpoint URLs for the given port.
pub fn health_endpoints(port: &str) -> (v: Vec<String>)
    ensures
        views_of(v@) == health_endpoint_list(port@),
{
    let base = "http://localhost:".to_owned().concat(port);
    let mut v: Vec<String> = Vec::new();
    v.push(base.clone().concat("/healthz"));
    v.push(base.clone().concat("/api/v1/health"));
    v.push(base);
    proof {
        assert(views_of(v@) =~= health_endpoint_list(port@));
    }
    v
}

/// Interpret the `docker images` query: images are available when the
/// command succeeded and printed a non-blank repository name.
pub fn images_available_from(success: bool, stdout: &str) -> (b: bool)
    ensures
        b == (success && trim_spec(stdout@).len() != 0),
{
    success && !trim(stdout).is_empty()
}

/// Interpret a `docker ps` query: n8n containers are listed when the
/// command succeeded and its output names them.
pub fn n8n_listed(success: bool, stdout: &str) -> (b: bool)
    ensures
        b == (success && contains_seq(stdout@, "n8n"@)),
{
    success && contains_str(stdout, "n8n")
}

/// Where the service check stands: locating a `docker` binary, querying
/// images, running containers and existing containers, probing the HTTP
/// endpoints, or finished.
pub enum N8NPhase {
    Locate,
    Images,
    Running { images_available: bool },
    Existing { images_available: bool, containers_running: bool },
    Http,
    Done { result: Result<N8NStatus, String> },
}

/// The service check as a state machine. The caller runs each requested
/// command or HTTP probe outside and reports back. The ghost fields record
/// the binary-probe outcomes, the endpoint-probe outcomes, and what the
/// running-containers layer reported.
pub struct N8NCheck {
    pub paths: Vec<String>,
    pub endpoints: Vec<String>,
    pub idx: usize,
    pub phase: N8NPhase,
    pub port: Ghost<Seq<char>>,
    pub locate_history: Ghost<Seq<bool>>,
    pub http_history: Ghost<Seq<bool>>,
    pub container_layer: Ghost<Option<bool>>,
}

impl N8NCheck {
    /// The check's invariant. The candidates and endpoints are the fixed,
    /// documented lists; probes are recorded in order and the first success
    /// settles each probing phase; the HTTP phase is entered only when the
    /// container layer answered; and a finished check reports the service
    /// running only when an endpoint probe answered healthy.
    pub open spec fn wf(&self) -> bool {
        &&& views_of(self.paths@) == docker_locate_list()
        &&& views_of(self.endpoints@) == health_endpoint_list(self.port@)
        &&& self.locate_history@.len() <= self.paths@.len()
        &&& self.http_history@.len() <= self.endpoints@.len()
        &&& match self.phase {
            N8NPhase::Locate => {
                &&& self.idx == self.locate_history@.len()
                &&& self.idx < self.paths@.len()
                &&& forall|k: int|
                    0 <= k < self.locate_history@.len() ==> !self.locate_history@[k]
                &&& self.http_history@.len() == 0
                &&& self.container_layer@ is None
            },
            N8NPhase::Images | N8NPhase::Running { .. } => {
                &&& self.idx < self.paths@.len()
                &&& self.locate_history@.len() == self.idx + 1
                &&& self.locate_history@[self.idx as int]
                &&& forall|k: int| 0 <= k < self.idx ==> !self.locate_history@[k]
                &&& self.http_history@.len() == 0
                &&& self.container_layer@ is None
            },
            N8NPhase::Existing { containers_running, .. } => {
                &&& self.idx < self.paths@.len()
                &&& self.locate_history@.len() == self.idx + 1
                &&& self.locate_history@[self.idx as int]
                &&& forall|k: int| 0 <= k < self.idx ==> !self.locate_history@[k]
                &&& self.http_history@.len() == 0
                &&& self.container_layer@ == Some(containers_running)
            },
            N8NPhase::Http => {
                &&& self.container_layer@ == Some(true)
                &&& self.idx == self.http_history@.len()
                &&& self.idx < self.endpoints@.len()
                &&& forall|k: int| 0 <= k < self.http_history@.len() ==> !self.http_history@[k]
            },
            N8NPhase::Done { result } => match result {
                Ok(st) => {
                    &&& (st.running ==> self.container_layer@ == Some(true)
                        && self.http_history@.len() >= 1 && self.http_history@[
                        self.http_history@.len() - 1
                    ] && forall|k: int|
                        0 <= k < self.http_history@.len() - 1 ==> !self.http_history@[k])
                    &&& (!st.running && st.error_message is Some ==> self.container_layer@
                        == Some(true) && self.http_history@.len() == self.endpoints@.len()
                        && forall|k: int|
                        0 <= k < self.http_history@.len() ==> !self.http_history@[k])
                    &&& (!st.running && st.error_message is None ==> self.container_layer@
                        == Some(false))
                },
                Err(_) => {
                    &&& self.locate_history@.len() == self.paths@.len()
                    &&& forall|k: int|
                        0 <= k < self.locate_history@.len() ==> !self.locate_history@[k]
                },
            },
        }
    }

    /// Start the check on the given configured port, at the first `docker`
    /// candidate.
    pub fn new(env_port: Option<String>) -> (c: N8NCheck)
        ensures
            c.wf(),
            c.phase is Locate,
            c.idx == 0,
            c.port@ == port_spec(env_port),
            views_of(c.paths@) == docker_locate_list(),
            views_of(c.endpoints@) == health_endpoint_list(port_spec(env_port)),
    {
        let ghost gport = port_spec(env_port);
        let port = effective_port(env_port);
        let endpoints = health_endpoints(port.as_str());
        let paths = docker_locate_paths();
        proof {
            assert(views_of(paths@).len() == paths@.len());
            assert(docker_locate_list().len() == 5);
            assert(views_of(endpoints@).len() == endpoints@.len());
            assert(health_endpoint_list(gport).len() == 3);
        }
        N8NCheck {
            paths,
            endpoints,
            idx: 0,
            phase: N8NPhase::Locate,
            port: Ghost(gport),
            locate_history: Ghost(Seq::empty()),
            http_history: Ghost(Seq::empty()),
            container_layer: Ghost(None),
        }
    }

    /// The docker command to run next, by phase: `--version` at the current
    /// candidate while locating, then the images query, the running-
    /// containers query and the all-containers query at the found binary.
    /// Locating gets a two-second deadline per candidate, each query three
    /// seconds. `None` while probing HTTP and once finished.
    pub fn request(&self) -> (r: Option<CmdRequest>)
        requires
            self.wf(),
        ensures
            self.phase is Locate ==> (r matches Some(q) && q.program@ == self.paths@[
                self.idx as int
            ]@ && views_of(q.args@) == seq!["--version"@] && q.timeout_secs == 2),
            self.phase is Images ==> (r matches Some(q) && q.program@ == self.paths@[
                self.idx as int
            ]@ && views_of(q.args@) == seq![
                "images"@,
                "n8nio/n8n"@,
                "--format"@,
                "{{.Repository}}"@,
            ] && q.timeout_secs == 3),
            self.phase is Running ==> (r matches Some(q) && q.program@ == self.paths@[
                self.idx as int
            ]@ && views_of(q.args@) == seq![
                "ps"@,
                "--filter"@,
                "name=n8n"@,
                "--format"@,
                "{{.Names}}"@,
            ] && q.timeout_secs == 3),
            self.phase is Existing ==> (r matches Some(q) && q.program@ == self.paths@[
                self.idx as int
            ]@ && views_of(q.args@) == seq![
                "ps"@,
                "-a"@,
                "--filter"@,
                "name=n8n"@,
                "--format"@,
                "{{.Names}}"@,
            ] && q.timeout_secs == 3),
            self.phase is Http || self.phase is Done ==> r is None,
    {
        match &self.phase {
            N8NPhase::Locate => Some(version_request(self.paths[self.idx].as_str(), 2)),
            N8NPhase::Images => Some(images_request(self.paths[self.idx].as_str(), 3)),
            N8NPhase::Running { .. } => Some(
                running_containers_request(self.paths[self.idx].as_str(), 3),
            ),
            N8NPhase::Existing { .. } => Some(all_containers_request(self.paths[self.idx].as_str(), 3)),
            N8NPhase::Http => None,
            N8NPhase::Done { .. } => None,
        }
    }

    /// The health endpoint to probe next, while in the HTTP phase.
    pub fn current_endpoint(&self) -> (r: Option<String>)
        requires
            self.wf(),
        ensures
            self.phase is Http ==> (r matches Some(u) && u@ == self.endpoints@[self.idx as int]@),
            !(self.phase is Http) ==> r is None,
    {
        match &self.phase {
            N8NPhase::Http => Some(self.endpoints[self.idx].clone()),
            _ => None,
        }
    }

    /// Report whether `--version` at the current candidate succeeded. On
    /// success the binary is settled and the check turns to the images
    /// query; on failure it moves to the next candidate, and past the last
    /// one it finishes with the "Docker not found" error.
    pub fn on_locate_outcome(&mut self, success: bool)
        requires
            old(self).wf(),
            old(self).phase is Locate,
        ensures
            final(self).wf(),
            final(self).paths == old(self).paths,
            final(self).endpoints == old(self).endpoints,
            final(self).port == old(self).port,
            final(self).locate_history@ == old(self).locate_history@.push(success),
            success ==> final(self).phase is Images && final(self).idx == old(self).idx,
            !success && old(self).idx + 1 < old(self).paths@.len() ==> (final(self).phase
                is Locate && final(self).idx == old(self).idx + 1),
            !success && old(self).idx + 1 == old(self).paths@.len() ==> (final(self).phase
                matches N8NPhase::Done { result } && result matches Err(m) && m@
                == "Docker not found"@),
    {
        proof {
            self.locate_history@ = self.locate_history@.push(success);
        }
        if success {
            self.phase = N8NPhase::Images;
        } else {
            let n = self.paths.len();
            self.idx += 1;
            if self.idx == n {
                self.phase = N8NPhase::Done { result: Err("Docker not found".to_owned()) };
            }
        }
    }

    /// Report the images query: the images layer holds when the command
    /// succeeded and printed a non-blank repository name.
    pub fn on_images_outcome(&mut self, success: bool, stdout: &str)
        requires
            old(self).wf(),
            old(self).phase is Images,
        ensures
            final(self).wf(),
            final(self).paths == old(self).paths,
            final(self).endpoints == old(self).endpoints,
            final(self).port == old(self).port,
            final(self).idx == old(self).idx,
            final(self).locate_history@ == old(self).locate_history@,
            final(self).phase matches N8NPhase::Running { images_available }
                && images_available == (success && trim_spec(stdout@).len() != 0),
    {
        let ia = images_available_from(success, stdout);
        self.phase = N8NPhase::Running { images_available: ia };
    }

    /// Report the running-containers query: the container layer holds when
    /// the command succeeded and its output names an n8n container.
    pub fn on_running_outcome(&mut self, success: bool, stdout: &str)
        requires
            old(self).wf(),
            old(self).phase is Running,
        ensures
            final(self).wf(),
            final(self).paths == old(self).paths,
            final(self).endpoints == old(self).endpoints,
            final(self).port == old(self).port,
            final(self).idx == old(self).idx,
            final(self).locate_history@ == old(self).locate_history@,
            final(self).container_layer@ == Some(
                success && contains_seq(stdout@, "n8n"@),
            ),
            old(self).phase matches N8NPhase::Running { images_available } ==> (final(self).phase
                matches N8NPhase::Existing {
                    images_available: ia2,
                    containers_running,
                } && ia2 == images_available && containers_running == (success && contains_seq(
                stdout@,
                "n8n"@,
            ))),
    {
        let ia: bool = match &self.phase {
            N8NPhase::Running { images_available } => *images_available,
            _ => {
                proof {
                    assert(false);
                }
                false
            },
        };
        let cr = n8n_listed(success, stdout);
        proof {
            self.container_layer@ = Some(cr);
        }
        self.phase = N8NPhase::Existing { images_available: ia, containers_running: cr };
    }

    /// Report the all-containers query. When the container layer failed,
    /// the check finishes at once with "not running" and what the earlier
    /// layers reported; otherwise it turns to the HTTP endpoints.
    pub fn on_existing_outcome(&mut self, success: bool, stdout: &str)
        requires
            old(self).wf(),
            old(self).phase is Existing,
        ensures
            final(self).wf(),
            final(self).paths == old(self).paths,
            final(self).endpoints == old(self).endpoints,
            final(self).port == old(self).port,
            final(self).locate_history@ == old(self).locate_history@,
            final(self).container_layer@ == old(self).container_layer@,
            old(self).phase matches N8NPhase::Existing {
                images_available,
                containers_running: false,
            } ==> (final(self).phase matches N8NPhase::Done { result } && result matches Ok(st)
                && st.running == false && st.containers_exist == (success && contains_seq(
                stdout@,
                "n8n"@,
            )) && st.images_available == images_available && st.error_message is None),
            old(self).phase matches N8NPhase::Existing { containers_running: true, .. } ==> (
            final(self).phase is Http && final(self).idx == 0),
    {
        let (ia, cr): (bool, bool) = match &self.phase {
            N8NPhase::Existing { images_available, containers_running } => (
                *images_available,
                *containers_running,
            ),
            _ => {
                proof {
                    assert(false);
                }
                (false, false)
            },
        };
        let ce = n8n_listed(success, stdout);
        if !cr {
            self.phase = N8NPhase::Done {
                result: Ok(
                    N8NStatus {
                        running: false,
                        containers_exist: ce,
                        images_available: ia,
                        error_message: None,
                    },
                ),
            };
        } else {
            proof {
                assert(views_of(self.endpoints@).len() == self.endpoints@.len());
                assert(health_endpoint_list(self.port@).len() == 3);
            }
            self.idx = 0;
            self.phase = N8NPhase::Http;
        }
    }

    /// Report the probe of the current endpoint: the status code of the
    /// response, or `None` when the request got none. A healthy answer
    /// (2xx or 401) finishes the check with "running"; otherwise the next
    /// endpoint is tried, and once all have failed the check finishes with
    /// "not running" and the containers-up-but-unresponsive message.
    pub fn on_http_response(&mut self, response: Option<u16>)
        requires
            old(self).wf(),
            old(self).phase is Http,
        ensures
            final(self).wf(),
            final(self).paths == old(self).paths,
            final(self).endpoints == old(self).endpoints,
            final(self).port == old(self).port,
            final(self).locate_history@ == old(self).locate_history@,
            final(self).container_layer@ == old(self).container_layer@,
            final(self).http_history@ == old(self).http_history@.push(healthy_response(response)),
            healthy_response(response) ==> (final(self).phase matches N8NPhase::Done { result }
                && result matches Ok(st) && st.running == true && st.containers_exist == true
                && st.images_available == true && st.error_message is None),
            !healthy_response(response) && old(self).idx + 1 < old(self).endpoints@.len() ==> (
            final(self).phase is Http && final(self).idx == old(self).idx + 1),
            !healthy_response(response) && old(self).idx + 1 == old(self).endpoints@.len() ==> (
            final(self).phase matches N8NPhase::Done { result } && result matches Ok(st)
                && st.running == false && st.containers_exist == true && st.images_available
                == true && (st.error_message matches Some(m) && m@
                == "Containers running but N8N not responding"@)),
    {
        let ok: bool = match &response {
            Some(code) => is_healthy_http_status(*code),
            None => false,
        };
        proof {
            self.http_history@ = self.http_history@.push(ok);
        }
        if ok {
            self.phase = N8NPhase::Done {
                result: Ok(
                    N8NStatus {
                        running: true,
                        containers_exist: true,
                        images_available: true,
                        error_message: None,
                    },
                ),
            };
        } else {
            let n = self.endpoints.len();
            self.idx += 1;
            if self.idx == n {
                self.phase = N8NPhase::Done {
                    result: Ok(
                        N8NStatus {
                            running: false,
                            containers_exist: true,
                            images_available: true,
                            error_message: Some(
                                "Containers running but N8N not responding".to_owned(),
                            ),
                        },
                    ),
                };
            }
        }
    }
}

/// The service check's binary search settles on the first `docker`
/// candidate that answers `--version` and ignores the ones after it; a
/// check that finished with "Docker not found" probed every candidate and
/// saw each fail.
pub proof fn lemma_locate_first_candidate(c: N8NCheck)
    requires
        c.wf(),
    ensures
        (c.phase is Images || c.phase is Running || c.phase is Existing) ==> {
            &&& c.locate_history@[c.idx as int]
            &&& forall|k: int| 0 <= k < c.idx ==> !c.locate_history@[k]
            &&& c.locate_history@.len() == c.idx + 1
        },
        c.phase matches N8NPhase::Done { result } ==> (result is Err ==> {
            &&& c.locate_history@.len() == c.paths@.len()
            &&& forall|k: int| 0 <= k < c.locate_history@.len() ==> !c.locate_history@[k]
        }),
{
}

/// The health check reports the service running only when the container
/// layer answered and an HTTP endpoint probe answered with a healthy status
/// (2xx or 401); whenever the container layer failed, it reports the
/// service as not running.
pub proof fn lemma_health_layering(c: N8NCheck)
    requires
        c.wf(),
    ensures
        c.phase matches N8NPhase::Done { result } ==> (result matches Ok(st) ==> {
            &&& (st.running ==> c.container_layer@ == Some(true) && c.http_history@.len() >= 1
                && c.http_history@[c.http_history@.len() - 1] && forall|k: int|
                0 <= k < c.http_history@.len() - 1 ==> !c.http_history@[k])
            &&& (c.container_layer@ == Some(false) ==> !st.running)
        }),
{
}

} // verus!
