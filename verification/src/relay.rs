//! The relay: once both sides of a session are established, frames are
//! forwarded verbatim in both directions. The relay is a race: the first
//! direction to end — cleanly or with an error — terminates it, and both
//! connections are then closed.

use vstd::prelude::*;

verus! {

/// The kind of a relayed frame. All kinds are forwarded alike, opaquely.
#[derive(Clone, Copy, PartialEq, Eq, Structural, Debug)]
pub enum FrameKind {
    Data,
    Control,
    Close,
}

/// One frame observed on either connection.
pub struct Frame {
    pub kind: FrameKind,
    pub payload: Vec<u8>,
}

/// The mathematical value of a frame: its kind and its exact payload bytes.
pub struct FrameView {
    pub kind: FrameKind,
    pub payload: Seq<u8>,
}

impl View for Frame {
    type V = FrameView;

    open spec fn view(&self) -> FrameView {
        FrameView { kind: self.kind, payload: self.payload@ }
    }
}

/// What the surrounding I/O loop observed on one of the two connections.
pub enum RelayEvent {
    /// A frame arrived from the client side.
    FromClient(Frame),
    /// A frame arrived from the backend side.
    FromBackend(Frame),
    /// The client direction ended: clean close, error, or end of stream.
    ClientEnded,
    /// The backend direction ended: clean close, error, or end of stream.
    BackendEnded,
}

/// The mathematical value of a relay event.
pub enum RelayEventView {
    FromClient(FrameView),
    FromBackend(FrameView),
    ClientEnded,
    BackendEnded,
}

impl View for RelayEvent {
    type V = RelayEventView;

    open spec fn view(&self) -> RelayEventView {
        match self {
            RelayEvent::FromClient(f) => RelayEventView::FromClient(f@),
            RelayEvent::FromBackend(f) => RelayEventView::FromBackend(f@),
            RelayEvent::ClientEnded => RelayEventView::ClientEnded,
            RelayEvent::BackendEnded => RelayEventView::BackendEnded,
        }
    }
}

/// What the I/O loop must do in answer to one event.
pub enum RelayAction {
    /// Write this frame, unchanged, to the backend connection.
    ToBackend(Frame),
    /// Write this frame, unchanged, to the client connection.
    ToClient(Frame),
    /// The race is over: close both connections, whatever their own state.
    CloseBoth,
}

/// The mathematical value of a relay action.
pub enum RelayActionView {
    ToBackend(FrameView),
    ToClient(FrameView),
    CloseBoth,
}

impl View for RelayAction {
    type V = RelayActionView;

    open spec fn view(&self) -> RelayActionView {
        match self {
            RelayAction::ToBackend(f) => RelayActionView::ToBackend(f@),
            RelayAction::ToClient(f) => RelayActionView::ToClient(f@),
            RelayAction::CloseBoth => RelayActionView::CloseBoth,
        }
    }
}

/// The answer the relay gives to one event: frames cross to the opposite
/// side verbatim; either side ending closes both connections.
pub open spec fn step_action(ev: RelayEventView) -> RelayActionView {
    match ev {
        RelayEventView::FromClient(f) => RelayActionView::ToBackend(f),
        RelayEventView::FromBackend(f) => RelayActionView::ToClient(f),
        RelayEventView::ClientEnded => RelayActionView::CloseBoth,
        RelayEventView::BackendEnded => RelayActionView::CloseBoth,
    }
}

/// True for the events that terminate the relay race.
pub open spec fn ends_relay(ev: RelayEventView) -> bool {
    ev is ClientEnded || ev is BackendEnded
}

/// The relay state of one session: only whether the race has ended. No
/// state is shared with any other session.
pub struct Relay {
    pub done: bool,
}

impl Relay {
    /// A fresh relay over two just-established connections.
    pub fn new() -> (r: Relay)
        ensures
            !r.done,
    {
        Relay { done: false }
    }

    /// Answers one observed event. Events are fed strictly in the order
    /// observed, and none after the race has ended.
    pub fn on_event(&mut self, ev: RelayEvent) -> (a: RelayAction)
        requires
            !old(self).done,
        ensures
            a@ == step_action(ev@),
            final(self).done == ends_relay(ev@),
    {
        match ev {
            RelayEvent::FromClient(f) => RelayAction::ToBackend(f),
            RelayEvent::FromBackend(f) => RelayAction::ToClient(f),
            RelayEvent::ClientEnded => {
                self.done = true;
                RelayAction::CloseBoth
            },
            RelayEvent::BackendEnded => {
                self.done = true;
                RelayAction::CloseBoth
            },
        }
    }
}

/// The frames the client sent, in arrival order.
pub open spec fn client_frames(evs: Seq<RelayEventView>) -> Seq<FrameView>
    decreases evs.len(),
{
    if evs.len() == 0 {
        Seq::empty()
    } else {
        let rest = client_frames(evs.drop_last());
        match evs.last() {
            RelayEventView::FromClient(f) => rest.push(f),
            _ => rest,
        }
    }
}

/// The frames the backend sent, in arrival order.
pub open spec fn backend_frames(evs: Seq<RelayEventView>) -> Seq<FrameView>
    decreases evs.len(),
{
    if evs.len() == 0 {
        Seq::empty()
    } else {
        let rest = backend_frames(evs.drop_last());
        match evs.last() {
            RelayEventView::FromBackend(f) => rest.push(f),
            _ => rest,
        }
    }
}

/// The answers the relay gives to a whole sequence of events.
pub open spec fn run_actions(evs: Seq<RelayEventView>) -> Seq<RelayActionView> {
    evs.map_values(|ev: RelayEventView| step_action(ev))
}

/// The frames a sequence of actions delivers to the backend, in order.
pub open spec fn delivered_to_backend(acts: Seq<RelayActionView>) -> Seq<FrameView>
    decreases acts.len(),
{
    if acts.len() == 0 {
        Seq::empty()
    } else {
        let rest = delivered_to_backend(acts.drop_last());
        match acts.last() {
            RelayActionView::ToBackend(f) => rest.push(f),
            _ => rest,
        }
    }
}

/// The frames a sequence of actions delivers to the client, in order.
pub open spec fn delivered_to_client(acts: Seq<RelayActionView>) -> Seq<FrameView>
    decreases acts.len(),
{
    if acts.len() == 0 {
        Seq::empty()
    } else {
        let rest = delivered_to_client(acts.drop_last());
        match acts.last() {
            RelayActionView::ToClient(f) => rest.push(f),
            _ => rest,
        }
    }
}

/// Over any sequence of events, each side observes exactly the frames the
/// other side sent: in order, byte for byte, independently per direction.
pub proof fn lemma_relay_preserves_streams(evs: Seq<RelayEventView>)
    ensures
        delivered_to_backend(run_actions(evs)) == client_frames(evs),
        delivered_to_client(run_actions(evs)) == backend_frames(evs),
    decreases evs.len(),
{
    if evs.len() == 0 {
        assert(run_actions(evs) =~= Seq::<RelayActionView>::empty());
    } else {
        lemma_relay_preserves_streams(evs.drop_last());
        let acts = run_actions(evs);
        assert(acts.drop_last() =~= run_actions(evs.drop_last()));
        assert(acts.last() == step_action(evs.last()));
    }
}

/// Whichever side ends first, the relay's one answer is to close both
/// connections, and the race is over: no further frame is forwarded in
/// either direction, so no half-open relay outlives the first ending.
pub proof fn lemma_first_end_closes_both(ev: RelayEventView)
    requires
        ends_relay(ev),
    ensures
        step_action(ev) == RelayActionView::CloseBoth,
{
}

} // verus!
