//! Backend resolution: turning the cluster's answer for a pod lookup into a
//! go/no-go decision, and building the target URL
//! `ws://<ip>:8080<original-path>` for the backend-side upgrade handshake.

use vstd::prelude::*;

verus! {

/// Why a session failed. A path rejection is not a failure and is recorded
/// separately by the session.
#[derive(Clone, Copy, PartialEq, Eq, Structural, Debug)]
pub enum SessionError {
    /// The cluster reports no pod of the requested name.
    PodAbsent,
    /// The lookup round-trip itself failed (transport or auth).
    LookupFailed,
    /// The pod exists but has no assigned, non-empty IP address.
    MissingIp,
    /// The backend-side upgrade handshake could not be established.
    ConnectFailed,
    /// A relay direction ended with an error.
    RelayFailed,
}

/// What the cluster answered when asked for the pod by name.
pub enum LookupOutcome {
    /// The pod exists; it may or may not have an assigned IP.
    Found { ip: Option<Vec<u8>> },
    /// No pod of that name exists.
    Absent,
    /// The lookup call itself failed.
    Failed,
}

/// The mathematical value of a lookup answer.
pub enum LookupOutcomeView {
    Found(Option<Seq<u8>>),
    Absent,
    Failed,
}

impl View for LookupOutcome {
    type V = LookupOutcomeView;

    open spec fn view(&self) -> LookupOutcomeView {
        match self {
            LookupOutcome::Found { ip } => LookupOutcomeView::Found(
                match ip {
                    Some(s) => Some(s@),
                    None => None,
                },
            ),
            LookupOutcome::Absent => LookupOutcomeView::Absent,
            LookupOutcome::Failed => LookupOutcomeView::Failed,
        }
    }
}

/// The usable backend IP of a lookup answer, if any: present exactly when
/// the pod was found with a non-empty IP.
pub open spec fn lookup_ip_view(o: LookupOutcomeView) -> Option<Seq<u8>> {
    match o {
        LookupOutcomeView::Found(ip) => match ip {
            Some(s) => if s.len() > 0 {
                Some(s)
            } else {
                None
            },
            None => None,
        },
        LookupOutcomeView::Absent => None,
        LookupOutcomeView::Failed => None,
    }
}

/// The error charged to a lookup answer that yielded no usable IP.
pub open spec fn lookup_error_view(o: LookupOutcomeView) -> SessionError {
    match o {
        LookupOutcomeView::Found(_) => SessionError::MissingIp,
        LookupOutcomeView::Absent => SessionError::PodAbsent,
        LookupOutcomeView::Failed => SessionError::LookupFailed,
    }
}

/// The usable backend IP of a lookup, if any: present exactly when the pod
/// was found with a non-empty IP.
pub open spec fn lookup_ip(outcome: LookupOutcome) -> Option<Seq<u8>> {
    lookup_ip_view(outcome@)
}

/// The error charged to a lookup that yielded no usable IP.
pub open spec fn lookup_error(outcome: LookupOutcome) -> SessionError {
    lookup_error_view(outcome@)
}

/// Decides whether a session may proceed to the backend: succeeds with the
/// pod's IP exactly when the lookup found the pod with a non-empty IP, and
/// otherwise fails with the error naming what went wrong.
pub fn decide_backend(outcome: LookupOutcome) -> (r: Result<Vec<u8>, SessionError>)
    ensures
        match r {
            Ok(ip) => lookup_ip(outcome) == Some(ip@),
            Err(e) => lookup_ip(outcome) is None && e == lookup_error(outcome),
        },
{
    match outcome {
        LookupOutcome::Found { ip } => match ip {
            Some(s) => if s.len() > 0 {
                Ok(s)
            } else {
                Err(SessionError::MissingIp)
            },
            None => Err(SessionError::MissingIp),
        },
        LookupOutcome::Absent => Err(SessionError::PodAbsent),
        LookupOutcome::Failed => Err(SessionError::LookupFailed),
    }
}

/// The bytes of the URL scheme `ws://`.
pub open spec fn ws_scheme() -> Seq<u8> {
    seq![119u8, 115u8, 58u8, 47u8, 47u8]
}

/// The bytes of the fixed backend port suffix `:8080`.
pub open spec fn port_suffix() -> Seq<u8> {
    seq![58u8, 56u8, 48u8, 56u8, 48u8]
}

/// The target URL for a backend: `ws://` + ip + `:8080` + the original path,
/// reused verbatim.
pub open spec fn target_url(ip: Seq<u8>, path: Seq<u8>) -> Seq<u8> {
    ws_scheme() + ip + port_suffix() + path
}

/// Appends all of `src` to `dst`, in order.
fn append_bytes(dst: &mut Vec<u8>, src: &Vec<u8>)
    ensures
        final(dst)@ == old(dst)@ + src@,
{
    let mut i: usize = 0;
    while i < src.len()
        invariant
            0 <= i <= src@.len(),
            dst@ == old(dst)@ + src@.subrange(0, i as int),
        decreases src@.len() - i,
    {
        let b = src[i];
        dst.push(b);
        proof {
            assert(dst@ =~= old(dst)@ + src@.subrange(0, i + 1));
        }
        i += 1;
    }
    proof {
        assert(old(dst)@ + src@.subrange(0, src@.len() as int) =~= old(dst)@ + src@);
    }
}

/// Builds the backend URL `ws://<ip>:8080<path>` byte for byte.
pub fn build_target_url(ip: &Vec<u8>, path: &Vec<u8>) -> (r: Vec<u8>)
    ensures
        r@ == target_url(ip@, path@),
{
    let mut r: Vec<u8> = Vec::new();
    r.push(119);
    r.push(115);
    r.push(58);
    r.push(47);
    r.push(47);
    proof {
        assert(r@ =~= ws_scheme());
    }
    append_bytes(&mut r, ip);
    r.push(58);
    r.push(56);
    r.push(48);
    r.push(56);
    r.push(48);
    proof {
        assert(r@ =~= ws_scheme() + ip@ + port_suffix());
    }
    append_bytes(&mut r, path);
    proof {
        assert(r@ =~= target_url(ip@, path@));
    }
    r
}

} // verus!
