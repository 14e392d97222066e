//! The per-session state machine. One `Session` exists per accepted
//! connection and owns no state shared with any other session. The
//! surrounding I/O loop performs the peek, the handshake, the cluster
//! lookup, the backend connect and the relay, and reports each observation
//! here; every decision — short-circuit, reject, abort, proceed — is taken
//! by this machine. Within one session the stages are strictly sequential:
//! probe, then validate, then resolve, then connect, then relay.

use vstd::prelude::*;
use crate::backend::{
    LookupOutcome, LookupOutcomeView, SessionError, build_target_url, decide_backend,
    lookup_error, lookup_error_view, lookup_ip, lookup_ip_view, target_url,
};
use crate::path::{extract_pod_id, path_has_prefix, path_is_valid, pod_id_of};
use crate::probe::{is_liveness_probe, liveness_prefix};

verus! {

/// How a finished session ended.
#[derive(Clone, Copy, PartialEq, Eq, Structural, Debug)]
pub enum Outcome {
    /// A liveness probe was answered with the fixed response.
    Served,
    /// The upgrade path did not match the required prefix: HTTP 404, no
    /// upgrade. Expected traffic, not a fault.
    Rejected,
    /// Both sides were established and the relay ran until one side ended
    /// cleanly.
    Relayed,
    /// The session failed at the recorded point.
    Failed(SessionError),
}

/// The stage a session has reached.
#[derive(Clone, Copy, PartialEq, Eq, Structural, Debug)]
pub enum Stage {
    /// Just accepted; nothing read yet.
    Accepted,
    /// The peeked bytes named a liveness probe.
    ProbedLiveness,
    /// The peeked bytes did not name a liveness probe; an upgrade handshake
    /// follows.
    ProbedUpgrade,
    /// The fixed liveness response has been written.
    Responded,
    /// The upgrade path matched the required prefix and was retained.
    PathValidated,
    /// The cluster returned a non-empty IP for the pod.
    PodResolved,
    /// The backend-side upgrade handshake succeeded.
    BackendConnected,
    /// Frames are being forwarded in both directions.
    Relaying,
    /// The session is over; all its resources are released together.
    Closed(Outcome),
}

/// A rejected upgrade: the handshake is answered with this status and no
/// upgrade takes place.
#[derive(Clone, Copy, PartialEq, Eq, Structural, Debug)]
pub struct Rejection;

impl Rejection {
    /// The HTTP status sent for a rejected path.
    pub fn status(&self) -> (r: u16)
        ensures
            r == 404,
    {
        404
    }
}

/// One proxied connection's state: its stage, and the data retained on the
/// way — the validated path, the pod identifier taken from it, and the
/// resolved backend IP.
pub struct Session {
    pub stage: Stage,
    pub path: Vec<u8>,
    pub pod_id: Vec<u8>,
    pub backend_ip: Vec<u8>,
}

/// The mathematical value of a session: its stage and the retained bytes.
pub struct SessionView {
    pub stage: Stage,
    pub path: Seq<u8>,
    pub pod_id: Seq<u8>,
    pub backend_ip: Seq<u8>,
}

impl View for Session {
    type V = SessionView;

    open spec fn view(&self) -> SessionView {
        SessionView {
            stage: self.stage,
            path: self.path@,
            pod_id: self.pod_id@,
            backend_ip: self.backend_ip@,
        }
    }
}

/// One observation fed to a session, as a mathematical value.
pub enum SessionEvent {
    /// The six peeked bytes.
    Peeked(Seq<u8>),
    /// The fixed liveness response has been written.
    ResponseSent,
    /// A served liveness session is closed.
    CloseServed,
    /// The upgrade request's path-and-query text.
    RequestPath(Seq<u8>),
    /// The cluster's answer for the pod.
    Lookup(LookupOutcomeView),
    /// Whether the backend-side handshake was established.
    Connect(bool),
    /// Both sides stand; the relay race begins.
    RelayStarted,
    /// The relay race ended, cleanly or not.
    RelayEnd(bool),
}

/// The one transition a session makes on one observation: exactly what the
/// methods of `Session` do, as a total function of the session's own value
/// and the event alone. An event that does not belong to the session's
/// stage changes nothing.
pub open spec fn session_step(s: SessionView, ev: SessionEvent) -> SessionView {
    match ev {
        SessionEvent::Peeked(b) => if s.stage == Stage::Accepted {
            SessionView {
                stage: if b == liveness_prefix() {
                    Stage::ProbedLiveness
                } else {
                    Stage::ProbedUpgrade
                },
                ..s
            }
        } else {
            s
        },
        SessionEvent::ResponseSent => if s.stage == Stage::ProbedLiveness {
            SessionView { stage: Stage::Responded, ..s }
        } else {
            s
        },
        SessionEvent::CloseServed => if s.stage == Stage::Responded {
            SessionView { stage: Stage::Closed(Outcome::Served), ..s }
        } else {
            s
        },
        SessionEvent::RequestPath(p) => if s.stage == Stage::ProbedUpgrade {
            if path_is_valid(p) {
                SessionView { stage: Stage::PathValidated, path: p, pod_id: pod_id_of(p), ..s }
            } else {
                SessionView { stage: Stage::Closed(Outcome::Rejected), ..s }
            }
        } else {
            s
        },
        SessionEvent::Lookup(o) => if s.stage == Stage::PathValidated {
            match lookup_ip_view(o) {
                Some(ip) => SessionView { stage: Stage::PodResolved, backend_ip: ip, ..s },
                None => SessionView {
                    stage: Stage::Closed(Outcome::Failed(lookup_error_view(o))),
                    ..s
                },
            }
        } else {
            s
        },
        SessionEvent::Connect(connected) => if s.stage == Stage::PodResolved {
            if connected {
                SessionView { stage: Stage::BackendConnected, ..s }
            } else {
                SessionView {
                    stage: Stage::Closed(Outcome::Failed(SessionError::ConnectFailed)),
                    ..s
                }
            }
        } else {
            s
        },
        SessionEvent::RelayStarted => if s.stage == Stage::BackendConnected {
            SessionView { stage: Stage::Relaying, ..s }
        } else {
            s
        },
        SessionEvent::RelayEnd(clean) => if s.stage == Stage::Relaying {
            SessionView {
                stage: if clean {
                    Stage::Closed(Outcome::Relayed)
                } else {
                    Stage::Closed(Outcome::Failed(SessionError::RelayFailed))
                },
                ..s
            }
        } else {
            s
        },
    }
}

impl Session {
    /// The session invariant: from validation on, the retained path matches
    /// the required prefix and the pod identifier is exactly the one the
    /// path names; from resolution on, the backend IP is non-empty. In
    /// particular a session can only be relaying when all three hold.
    pub open spec fn wf(self) -> bool {
        &&& ((self.stage is PathValidated || self.stage is PodResolved
            || self.stage is BackendConnected || self.stage is Relaying) ==> (path_is_valid(
            self.path@,
        ) && self.pod_id@ == pod_id_of(self.path@)))
        &&& ((self.stage is PodResolved || self.stage is BackendConnected
            || self.stage is Relaying) ==> self.backend_ip@.len() > 0)
    }

    /// A fresh session for a just-accepted connection.
    pub fn new() -> (s: Session)
        ensures
            s.wf(),
            s.stage == Stage::Accepted,
    {
        Session { stage: Stage::Accepted, path: Vec::new(), pod_id: Vec::new(), backend_ip: Vec::new() }
    }

    /// Classifies the six peeked bytes. Exactly when they equal `GET / `,
    /// the session is a liveness probe: the fixed response is to be sent and
    /// no upgrade handshake is ever attempted. Otherwise the stream is left
    /// for the handshake.
    pub fn on_peek(&mut self, peeked: &[u8]) -> (liveness: bool)
        requires
            old(self).wf(),
            old(self).stage == Stage::Accepted,
        ensures
            final(self).wf(),
            final(self)@ == session_step(old(self)@, SessionEvent::Peeked(peeked@)),
            liveness == (peeked@ == liveness_prefix()),
            final(self).stage == (if liveness {
                Stage::ProbedLiveness
            } else {
                Stage::ProbedUpgrade
            }),
    {
        let liveness = is_liveness_probe(peeked);
        if liveness {
            self.stage = Stage::ProbedLiveness;
        } else {
            self.stage = Stage::ProbedUpgrade;
        }
        liveness
    }

    /// Records that the fixed liveness response has been written.
    pub fn response_sent(&mut self)
        requires
            old(self).wf(),
            old(self).stage == Stage::ProbedLiveness,
        ensures
            final(self).wf(),
            final(self)@ == session_step(old(self)@, SessionEvent::ResponseSent),
            final(self).stage == Stage::Responded,
    {
        self.stage = Stage::Responded;
    }

    /// Closes a served liveness session.
    pub fn close_served(&mut self)
        requires
            old(self).wf(),
            old(self).stage == Stage::Responded,
        ensures
            final(self).wf(),
            final(self)@ == session_step(old(self)@, SessionEvent::CloseServed),
            final(self).stage == Stage::Closed(Outcome::Served),
    {
        self.stage = Stage::Closed(Outcome::Served);
    }

    /// Judges the upgrade request's path-and-query text during handshake
    /// negotiation. A path with the required prefix is retained together
    /// with its pod identifier and the handshake may proceed; any other
    /// path is answered with HTTP 404 and the session closes rejected, with
    /// no lookup and no backend connection ever attempted.
    pub fn on_request_path(&mut self, path: Vec<u8>) -> (r: Result<(), Rejection>)
        requires
            old(self).wf(),
            old(self).stage == Stage::ProbedUpgrade,
        ensures
            final(self).wf(),
            final(self)@ == session_step(old(self)@, SessionEvent::RequestPath(path@)),
            path_is_valid(path@) ==> (r == Ok::<(), Rejection>(()) && final(self).stage
                == Stage::PathValidated && final(self).path@ == path@ && final(self).pod_id@
                == pod_id_of(path@)),
            !path_is_valid(path@) ==> (r == Err::<(), Rejection>(Rejection) && final(self).stage
                == Stage::Closed(Outcome::Rejected)),
    {
        if path_has_prefix(&path) {
            let id = extract_pod_id(&path);
            self.path = path;
            self.pod_id = id;
            self.stage = Stage::PathValidated;
            Ok(())
        } else {
            self.stage = Stage::Closed(Outcome::Rejected);
            Err(Rejection)
        }
    }

    /// The pod to look up: the text of the validated path after the
    /// required prefix, up to the next slash. It can be empty (bare-prefix
    /// path); such a lookup is simply left to the cluster to fail.
    pub fn pod_name(&self) -> (r: &Vec<u8>)
        requires
            self.wf(),
            self.stage == Stage::PathValidated,
        ensures
            r@ == pod_id_of(self.path@),
    {
        &self.pod_id
    }

    /// Judges the cluster's answer for the pod. Exactly when the pod was
    /// found with a non-empty IP, the session proceeds and the returned
    /// target URL is `ws://<ip>:8080<path>` with the validated path reused
    /// verbatim. On any other answer — pod absent, lookup failure, missing
    /// IP — no backend connection is attempted and the session closes in
    /// the matching error state.
    pub fn on_lookup(&mut self, outcome: LookupOutcome) -> (r: Result<Vec<u8>, SessionError>)
        requires
            old(self).wf(),
            old(self).stage == Stage::PathValidated,
        ensures
            final(self).wf(),
            final(self)@ == session_step(old(self)@, SessionEvent::Lookup(outcome@)),
            final(self).path@ == old(self).path@,
            final(self).pod_id@ == old(self).pod_id@,
            match r {
                Ok(url) => lookup_ip(outcome) == Some(final(self).backend_ip@) && url@
                    == target_url(final(self).backend_ip@, old(self).path@) && final(self).stage
                    == Stage::PodResolved,
                Err(e) => lookup_ip(outcome) == None::<Seq<u8>> && e == lookup_error(outcome)
                    && final(self).stage == Stage::Closed(Outcome::Failed(e)),
            },
    {
        match decide_backend(outcome) {
            Ok(ip) => {
                let url = build_target_url(&ip, &self.path);
                self.backend_ip = ip;
                self.stage = Stage::PodResolved;
                Ok(url)
            },
            Err(e) => {
                self.stage = Stage::Closed(Outcome::Failed(e));
                Err(e)
            },
        }
    }

    /// Records the fate of the backend-side upgrade handshake: established,
    /// or failed, which aborts the session with no retry and no fallback.
    pub fn on_connect(&mut self, connected: bool) -> (r: Result<(), SessionError>)
        requires
            old(self).wf(),
            old(self).stage == Stage::PodResolved,
        ensures
            final(self).wf(),
            final(self)@ == session_step(old(self)@, SessionEvent::Connect(connected)),
            final(self).path@ == old(self).path@,
            final(self).pod_id@ == old(self).pod_id@,
            final(self).backend_ip@ == old(self).backend_ip@,
            connected ==> (r == Ok::<(), SessionError>(()) && final(self).stage
                == Stage::BackendConnected),
            !connected ==> (r == Err::<(), SessionError>(SessionError::ConnectFailed)
                && final(self).stage == Stage::Closed(Outcome::Failed(SessionError::ConnectFailed))),
    {
        if connected {
            self.stage = Stage::BackendConnected;
            Ok(())
        } else {
            self.stage = Stage::Closed(Outcome::Failed(SessionError::ConnectFailed));
            Err(SessionError::ConnectFailed)
        }
    }

    /// Both sides stand; the bidirectional relay race begins.
    pub fn relay_started(&mut self)
        requires
            old(self).wf(),
            old(self).stage == Stage::BackendConnected,
        ensures
            final(self).wf(),
            final(self)@ == session_step(old(self)@, SessionEvent::RelayStarted),
            final(self).path@ == old(self).path@,
            final(self).pod_id@ == old(self).pod_id@,
            final(self).backend_ip@ == old(self).backend_ip@,
            final(self).stage == Stage::Relaying,
    {
        self.stage = Stage::Relaying;
    }

    /// The relay race ended — cleanly, or with an error in either
    /// direction. Either way the session is over and both connections are
    /// closed together.
    pub fn on_relay_end(&mut self, clean: bool)
        requires
            old(self).wf(),
            old(self).stage == Stage::Relaying,
        ensures
            final(self).wf(),
            final(self)@ == session_step(old(self)@, SessionEvent::RelayEnd(clean)),
            final(self).path@ == old(self).path@,
            final(self).pod_id@ == old(self).pod_id@,
            final(self).backend_ip@ == old(self).backend_ip@,
            final(self).stage == (if clean {
                Stage::Closed(Outcome::Relayed)
            } else {
                Stage::Closed(Outcome::Failed(SessionError::RelayFailed))
            }),
    {
        if clean {
            self.stage = Stage::Closed(Outcome::Relayed);
        } else {
            self.stage = Stage::Closed(Outcome::Failed(SessionError::RelayFailed));
        }
    }
}

/// A session reaches the relay stage only if its path matched the required
/// prefix, its pod identifier is the one that path names, and the cluster
/// reported a non-empty IP for that pod.
pub proof fn lemma_relaying_is_fully_resolved(s: Session)
    requires
        s.wf(),
        s.stage == Stage::Relaying,
    ensures
        path_is_valid(s.path@),
        s.pod_id@ == pod_id_of(s.path@),
        s.backend_ip@.len() > 0,
{
}

/// A session's value after taking a whole sequence of its own events, in
/// order: the fold of `session_step`.
pub open spec fn run_session(s: SessionView, evs: Seq<SessionEvent>) -> SessionView
    decreases evs.len(),
{
    if evs.len() == 0 {
        s
    } else {
        session_step(run_session(s, evs.drop_last()), evs.last())
    }
}

/// Two sessions run under one interleaved schedule: each entry names which
/// session (`true` the first, `false` the second) takes the event.
pub open spec fn run_pair(
    a: SessionView,
    b: SessionView,
    sched: Seq<(bool, SessionEvent)>,
) -> (SessionView, SessionView)
    decreases sched.len(),
{
    if sched.len() == 0 {
        (a, b)
    } else {
        let prev = run_pair(a, b, sched.drop_last());
        if sched.last().0 {
            (session_step(prev.0, sched.last().1), prev.1)
        } else {
            (prev.0, session_step(prev.1, sched.last().1))
        }
    }
}

/// The events of one session, in order, out of an interleaved schedule.
pub open spec fn events_for(sched: Seq<(bool, SessionEvent)>, first: bool) -> Seq<SessionEvent>
    decreases sched.len(),
{
    if sched.len() == 0 {
        Seq::empty()
    } else {
        let rest = events_for(sched.drop_last(), first);
        if sched.last().0 == first {
            rest.push(sched.last().1)
        } else {
            rest
        }
    }
}

/// Concurrent sessions are independent. No state is shared between two
/// sessions, so under any interleaved schedule — whatever each session's
/// events are, failures, rejections and delays included — each session's
/// final value is exactly the run of its own events alone: a step of one
/// session never aborts, delays or alters the other.
pub proof fn lemma_sessions_independent(
    a: SessionView,
    b: SessionView,
    sched: Seq<(bool, SessionEvent)>,
)
    ensures
        run_pair(a, b, sched).0 == run_session(a, events_for(sched, true)),
        run_pair(a, b, sched).1 == run_session(b, events_for(sched, false)),
    decreases sched.len(),
{
    if sched.len() > 0 {
        lemma_sessions_independent(a, b, sched.drop_last());
        let ev = sched.last().1;
        if sched.last().0 {
            let pe = events_for(sched.drop_last(), true);
            assert(events_for(sched, true) == pe.push(ev));
            assert(pe.push(ev).drop_last() =~= pe);
            assert(events_for(sched, false) == events_for(sched.drop_last(), false));
        } else {
            let pe = events_for(sched.drop_last(), false);
            assert(events_for(sched, false) == pe.push(ev));
            assert(pe.push(ev).drop_last() =~= pe);
            assert(events_for(sched, true) == events_for(sched.drop_last(), true));
        }
    }
}

} // verus!
