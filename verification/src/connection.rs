//! The backend connection manager: the decision steps that take a
//! configured host and port through address resolution, pool creation and
//! version validation to a usable connection handle.
//!
//! The network work itself (resolving, opening the pool, probing the
//! version endpoint) happens outside; each outcome is handed back in as a
//! [`ConnectEvent`] and [`connect_step`] decides what follows. A
//! [`ConnectionHandle`] is only ever produced after the backend's
//! reported version has passed the configured requirement.

use crate::server::Error;
use crate::version::{
    comparators_hold, parse_requirement, parse_version, requirement_holds, requirement_of,
    requirement_text_ok, version_of, version_text_ok, Comparator, Version, VersionRequirement,
};
use vstd::prelude::*;
use vstd::string::StringExecFns;

verus! {

/// What the connection manager is configured with: the backend's host
/// and port, the request timeout every backend call will carry, and the
/// version requirement the backend must satisfy.
#[derive(Debug, Clone, PartialEq)]
pub struct ConnectParams {
    pub host: String,
    pub port: u16,
    pub timeout_ms: u64,
    pub version_req: VersionRequirement,
}

/// A live, version-validated reference to the backend. One is built at
/// startup and shared read-only by every request handler; none is ever
/// exposed whose backend failed the version check.
#[derive(Debug, Clone)]
pub struct ConnectionHandle {
    url: String,
    timeout_ms: u64,
    version: Version,
    version_req: VersionRequirement,
}

impl ConnectionHandle {
    /// The base URL the handle points at.
    pub closed spec fn url_spec(&self) -> Seq<char> {
        self.url@
    }

    /// The request timeout every call through this handle carries.
    pub closed spec fn timeout_spec(&self) -> u64 {
        self.timeout_ms
    }

    /// The backend version reported when the handle was built.
    pub closed spec fn version_spec(&self) -> Version {
        self.version
    }

    /// The comparators of the requirement the handle was validated
    /// against.
    pub closed spec fn requirement_spec(&self) -> Seq<Comparator> {
        self.version_req.comparators@
    }

    /// A handle is well formed when the backend version it recorded
    /// satisfies the requirement it was built with.
    pub open spec fn wf(&self) -> bool {
        comparators_hold(self.version_spec(), self.requirement_spec())
    }

    pub fn url(&self) -> (url: &String)
        ensures
            url@ == self.url_spec(),
    {
        &self.url
    }

    pub fn timeout_ms(&self) -> (t: u64)
        ensures
            t == self.timeout_spec(),
    {
        self.timeout_ms
    }

    pub fn version(&self) -> (v: Version)
        ensures
            v == self.version_spec(),
    {
        self.version
    }
}

/// Where the startup sequence stands: resolution, pool creation and the
/// version check in order, then either a usable handle or the error that
/// stopped it.
#[derive(Debug)]
pub enum ConnectPhase {
    Resolving,
    CreatingPool { url: String },
    CheckingVersion { url: String },
    Connected { handle: ConnectionHandle },
    Failed { error: Error },
}

/// The outcome of the one piece of outside work the current phase asked
/// for: the resolver's candidate addresses (rendered as `host:port`
/// texts) or its error, the pool construction's outcome, and the version
/// probe's reported version text or its error.
#[derive(Debug, Clone, PartialEq)]
pub enum ConnectEvent {
    Resolved { addrs: Vec<String> },
    ResolveFailed { msg: String },
    PoolCreated,
    PoolFailed { msg: String },
    VersionReported { version: String },
    VersionProbeFailed { msg: String },
}

/// Which events can answer which phase: exactly the outcome of the work
/// that phase asked for. The two terminal phases ask for nothing and
/// accept nothing.
pub open spec fn phase_accepts(phase: ConnectPhase, event: ConnectEvent) -> bool {
    match phase {
        ConnectPhase::Resolving => event matches ConnectEvent::Resolved { .. } || event matches ConnectEvent::ResolveFailed { .. },
        ConnectPhase::CreatingPool { .. } => event matches ConnectEvent::PoolCreated || event matches ConnectEvent::PoolFailed { .. },
        ConnectPhase::CheckingVersion { .. } => event matches ConnectEvent::VersionReported { .. } || event matches ConnectEvent::VersionProbeFailed { .. },
        ConnectPhase::Connected { .. } => false,
        ConnectPhase::Failed { .. } => false,
    }
}

/// Reads the configured version requirement out of its settings text.
/// A text that is not a well-formed requirement is a settings failure,
/// surfaced before any network activity.
pub fn requirement_from_settings(text: &str) -> (r: Result<VersionRequirement, Error>)
    ensures
        requirement_text_ok(text@) ==> r is Ok && r->Ok_0.comparators@ == requirement_of(text@),
        !requirement_text_ok(text@) ==> r is Err && (r->Err_0 matches Error::SettingsProcessing {
            msg,
        } && msg@ == text@),
{
    match parse_requirement(text) {
        Some(req) => Ok(req),
        None => Err(Error::SettingsProcessing { msg: text.to_owned() }),
    }
}

/// Copies a requirement; comparators are plain values.
fn clone_requirement(req: &VersionRequirement) -> (r: VersionRequirement)
    ensures
        r.comparators@ == req.comparators@,
{
    let n = req.comparators.len();
    let mut comparators: Vec<Comparator> = Vec::new();
    let mut i: usize = 0;
    while i < n
        invariant
            n == req.comparators@.len(),
            i <= n,
            comparators@ == req.comparators@.subrange(0, i as int),
        decreases n - i,
    {
        comparators.push(req.comparators[i]);
        proof {
            assert(comparators@ =~= req.comparators@.subrange(0, i + 1));
        }
        i = i + 1;
    }
    proof {
        assert(req.comparators@.subrange(0, n as int) =~= req.comparators@);
    }
    VersionRequirement { comparators }
}

/// A reported version text is acceptable when it is well formed and the
/// version it denotes satisfies the requirement.
pub open spec fn reported_acceptable(text: Seq<char>, req: VersionRequirement) -> bool {
    version_text_ok(text) && requirement_holds(version_of(text), req)
}

/// The phase that fails startup because resolution yielded no candidate.
pub open spec fn failed_addr_resolution(next: ConnectPhase) -> bool {
    &&& next matches ConnectPhase::Failed { error: Error::AddrResolution { msg } }
    &&& msg@ == "Cannot resolve elasticsearch addr."@
}

/// The phase that fails startup because the resolver itself errored.
pub open spec fn failed_sock_addr(
    next: ConnectPhase,
    host: Seq<char>,
    port: u16,
    msg: Seq<char>,
) -> bool {
    &&& next matches ConnectPhase::Failed { error: Error::SockAddr { host: h, port: p, msg: m } }
    &&& h@ == host
    &&& p == port
    &&& m@ == msg
}

/// The phase that fails startup because the pool could not be built.
pub open spec fn failed_pool_creation(next: ConnectPhase, msg: Seq<char>) -> bool {
    &&& next matches ConnectPhase::Failed {
        error: Error::ElasticsearchConnectionPoolCreation { msg: m },
    }
    &&& m@ == msg
}

/// The phase that fails startup at the version check, whether because
/// the probe failed or because the reported version is unacceptable.
pub open spec fn failed_connection(next: ConnectPhase, msg: Seq<char>) -> bool {
    &&& next matches ConnectPhase::Failed { error: Error::ElasticsearchConnection { msg: m } }
    &&& m@ == msg
}

/// The phase that goes on to build the pool against the given base URL.
pub open spec fn creating_pool_with(next: ConnectPhase, url: Seq<char>) -> bool {
    &&& next matches ConnectPhase::CreatingPool { url: u }
    &&& u@ == url
}

/// The phase that goes on to probe the backend version, keeping the URL.
pub open spec fn checking_version_with(next: ConnectPhase, url: Seq<char>) -> bool {
    &&& next matches ConnectPhase::CheckingVersion { url: u }
    &&& u@ == url
}

/// The phase that carries out a well-formed handle recording exactly the
/// URL, timeout, version and requirement it was validated with.
pub open spec fn connected_with(
    next: ConnectPhase,
    url: Seq<char>,
    timeout_ms: u64,
    version: Version,
    comparators: Seq<Comparator>,
) -> bool {
    &&& next matches ConnectPhase::Connected { handle }
    &&& handle.url_spec() == url
    &&& handle.timeout_spec() == timeout_ms
    &&& handle.version_spec() == version
    &&& handle.requirement_spec() == comparators
    &&& handle.wf()
}

/// One step of the startup sequence: given the phase that asked for
/// outside work and that work's outcome, the phase that follows.
///
/// Address resolution that errors or yields no candidate fails the
/// startup at once — no later step, and so no call to the backend, can
/// follow a `Failed` phase. A reported version is parsed and held
/// against the configured requirement; only when it satisfies every
/// comparator does a `Connected` phase carry a handle out, and that
/// handle records the URL, timeout, version and requirement it was
/// validated with.
pub fn connect_step(params: &ConnectParams, phase: ConnectPhase, event: ConnectEvent) -> (next:
    ConnectPhase)
    requires
        phase_accepts(phase, event),
    ensures
        phase is Resolving && event is Resolved && event->Resolved_addrs@.len() == 0
            ==> failed_addr_resolution(next),
        phase is Resolving && event is Resolved && event->Resolved_addrs@.len() > 0
            ==> creating_pool_with(next, "http://"@ + event->Resolved_addrs@[0]@),
        phase is Resolving && event is ResolveFailed ==> failed_sock_addr(
            next,
            params.host@,
            params.port,
            event->ResolveFailed_msg@,
        ),
        phase is CreatingPool && event is PoolCreated ==> checking_version_with(
            next,
            phase->CreatingPool_url@,
        ),
        phase is CreatingPool && event is PoolFailed ==> failed_pool_creation(
            next,
            event->PoolFailed_msg@,
        ),
        phase is CheckingVersion && event is VersionReported && reported_acceptable(
            event->VersionReported_version@,
            params.version_req,
        ) ==> connected_with(
            next,
            phase->CheckingVersion_url@,
            params.timeout_ms,
            version_of(event->VersionReported_version@),
            params.version_req.comparators@,
        ),
        phase is CheckingVersion && event is VersionReported && !reported_acceptable(
            event->VersionReported_version@,
            params.version_req,
        ) ==> failed_connection(next, event->VersionReported_version@),
        phase is CheckingVersion && event is VersionProbeFailed ==> failed_connection(
            next,
            event->VersionProbeFailed_msg@,
        ),
        connect_step_ensures(*params, phase, event, next),
{
    match (phase, event) {
        (ConnectPhase::Resolving, ConnectEvent::Resolved { addrs }) => {
            if addrs.len() == 0 {
                ConnectPhase::Failed {
                    error: Error::AddrResolution {
                        msg: String::from_str("Cannot resolve elasticsearch addr."),
                    },
                }
            } else {
                let mut url = String::from_str("http://");
                url.append(addrs[0].as_str());
                ConnectPhase::CreatingPool { url }
            }
        },
        (ConnectPhase::Resolving, ConnectEvent::ResolveFailed { msg }) => ConnectPhase::Failed {
            error: Error::SockAddr { host: params.host.clone(), port: params.port, msg },
        },
        (ConnectPhase::CreatingPool { url }, ConnectEvent::PoolCreated) => {
            ConnectPhase::CheckingVersion { url }
        },
        (ConnectPhase::CreatingPool { url: _ }, ConnectEvent::PoolFailed { msg }) => {
            ConnectPhase::Failed { error: Error::ElasticsearchConnectionPoolCreation { msg } }
        },
        (ConnectPhase::CheckingVersion { url }, ConnectEvent::VersionReported { version }) => {
            match parse_version(version.as_str()) {
                Some(reported) => {
                    if params.version_req.matches(&reported) {
                        ConnectPhase::Connected {
                            handle: ConnectionHandle {
                                url,
                                timeout_ms: params.timeout_ms,
                                version: reported,
                                version_req: clone_requirement(&params.version_req),
                            },
                        }
                    } else {
                        ConnectPhase::Failed {
                            error: Error::ElasticsearchConnection { msg: version },
                        }
                    }
                },
                None => ConnectPhase::Failed {
                    error: Error::ElasticsearchConnection { msg: version },
                },
            }
        },
        (ConnectPhase::CheckingVersion { url: _ }, ConnectEvent::VersionProbeFailed { msg }) => {
            ConnectPhase::Failed { error: Error::ElasticsearchConnection { msg } }
        },
        _ => vstd::pervasive::unreached(),
    }
}

/// Everything [`connect_step`] promises of one step, gathered so that
/// the lemmas below can speak about an arbitrary step's outcome.
pub open spec fn connect_step_ensures(
    params: ConnectParams,
    phase: ConnectPhase,
    event: ConnectEvent,
    next: ConnectPhase,
) -> bool {
    &&& (phase is Resolving && event is Resolved && event->Resolved_addrs@.len() == 0
        ==> failed_addr_resolution(next))
    &&& (phase is Resolving && event is Resolved && event->Resolved_addrs@.len() > 0
        ==> creating_pool_with(next, "http://"@ + event->Resolved_addrs@[0]@))
    &&& (phase is Resolving && event is ResolveFailed ==> failed_sock_addr(
        next,
        params.host@,
        params.port,
        event->ResolveFailed_msg@,
    ))
    &&& (phase is CheckingVersion && event is VersionReported && reported_acceptable(
        event->VersionReported_version@,
        params.version_req,
    ) ==> connected_with(
        next,
        phase->CheckingVersion_url@,
        params.timeout_ms,
        version_of(event->VersionReported_version@),
        params.version_req.comparators@,
    ))
    &&& (phase is CheckingVersion && event is VersionReported && !reported_acceptable(
        event->VersionReported_version@,
        params.version_req,
    ) ==> failed_connection(next, event->VersionReported_version@))
}

/// A backend whose reported version fails the requirement never yields a
/// handle: the step out of the version check ends in `Failed` with a
/// connection error, not in `Connected`.
pub proof fn lemma_version_mismatch_yields_no_handle(
    params: ConnectParams,
    phase: ConnectPhase,
    event: ConnectEvent,
    next: ConnectPhase,
)
    requires
        phase is CheckingVersion,
        event is VersionReported,
        !reported_acceptable(event->VersionReported_version@, params.version_req),
        connect_step_ensures(params, phase, event, next),
    ensures
        next is Failed,
        next->Failed_error is ElasticsearchConnection,
        !(next is Connected),
{
}

/// An unresolvable host stops startup at resolution: the step out of
/// `Resolving` on a failed or empty resolution ends in `Failed` with an
/// address error, and a `Failed` phase asks for no further outside work,
/// so no call ever reaches the backend.
pub proof fn lemma_unresolvable_host_stops_startup(
    params: ConnectParams,
    phase: ConnectPhase,
    event: ConnectEvent,
    next: ConnectPhase,
)
    requires
        phase is Resolving,
        (event is Resolved && event->Resolved_addrs@.len() == 0) || event is ResolveFailed,
        connect_step_ensures(params, phase, event, next),
    ensures
        next is Failed,
        next->Failed_error is AddrResolution || next->Failed_error is SockAddr,
        forall|later: ConnectEvent| !phase_accepts(next, later),
{
}

/// Terminal phases are terminal: neither a `Connected` nor a `Failed`
/// phase accepts any further event.
pub proof fn lemma_terminal_phases_accept_nothing(phase: ConnectPhase, event: ConnectEvent)
    requires
        phase is Connected || phase is Failed,
    ensures
        !phase_accepts(phase, event),
{
}

} // verus!
