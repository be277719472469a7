//! The connection manager's session state machine: what to do on each
//! socket event.  The loop that owns the socket performs the returned
//! actions and feeds the next event back in; it never decides anything
//! itself.

use vstd::prelude::*;

use crate::codec::{decode_events, wire_of, Decoded};
use crate::json::json_of;
use crate::types::{event_views, ApiCommand, EventModel, SimplexEvent};

verus! {

/// The session's phase.
#[derive(Clone, Copy, Debug, PartialEq, Eq, Structural)]
pub enum ConnState {
    Disconnected,
    Connecting,
    Connected,
}

/// What the socket loop reports: time to retry, an opened connection, a
/// failed attempt, an inbound text frame, or a closed connection.
#[derive(Debug)]
pub enum ConnEvent {
    Retry,
    Opened,
    ConnectFailed,
    Frame(String),
    Closed,
}

/// Mathematical model of a `ConnEvent`.
pub enum ConnEventModel {
    Retry,
    Opened,
    ConnectFailed,
    Frame(Seq<char>),
    Closed,
}

impl View for ConnEvent {
    type V = ConnEventModel;

    open spec fn view(&self) -> ConnEventModel {
        match self {
            ConnEvent::Retry => ConnEventModel::Retry,
            ConnEvent::Opened => ConnEventModel::Opened,
            ConnEvent::ConnectFailed => ConnEventModel::ConnectFailed,
            ConnEvent::Frame(s) => ConnEventModel::Frame(s@),
            ConnEvent::Closed => ConnEventModel::Closed,
        }
    }
}

/// What the socket loop is told to do, in order: attempt a connection,
/// forward a domain event downstream, transmit a frame, or sleep the fixed
/// retry delay.
#[derive(Debug)]
pub enum ConnAction {
    Connect,
    Emit(SimplexEvent),
    SendFrame(String),
    Sleep,
}

/// Mathematical model of a `ConnAction`.
pub enum ActionModel {
    Connect,
    Emit(EventModel),
    SendFrame(Seq<char>),
    Sleep,
}

impl View for ConnAction {
    type V = ActionModel;

    open spec fn view(&self) -> ActionModel {
        match self {
            ConnAction::Connect => ActionModel::Connect,
            ConnAction::Emit(e) => ActionModel::Emit(e@),
            ConnAction::SendFrame(s) => ActionModel::SendFrame(s@),
            ConnAction::Sleep => ActionModel::Sleep,
        }
    }
}

/// The models of a sequence of actions, element-wise.
pub open spec fn action_views(s: Seq<ConnAction>) -> Seq<ActionModel> {
    Seq::new(s.len(), |i: int| s[i]@)
}

/// Each decoded domain event forwarded downstream, in arrival order.
pub open spec fn emits_of(events: Seq<EventModel>) -> Seq<ActionModel> {
    Seq::new(events.len(), |i: int| ActionModel::Emit(events[i]))
}

/// The next session phase: a retry tick starts connecting, an opened
/// socket is connected, and a failure or close disconnects; everything
/// else stays put.
pub open spec fn conn_next(s: ConnState, e: ConnEventModel) -> ConnState {
    match (s, e) {
        (ConnState::Disconnected, ConnEventModel::Retry) => ConnState::Connecting,
        (ConnState::Connecting, ConnEventModel::Opened) => ConnState::Connected,
        (ConnState::Connecting, ConnEventModel::ConnectFailed) => ConnState::Disconnected,
        (ConnState::Connected, ConnEventModel::Closed) => ConnState::Disconnected,
        _ => s,
    }
}

/// What the loop must do on each transition: on connect, announce the
/// session and send the two bootstrap commands before anything else; on
/// loss, announce the disconnect and sleep the fixed delay before the
/// unconditional retry; on a frame, forward exactly the decoded events.
pub open spec fn conn_actions(s: ConnState, e: ConnEventModel) -> Seq<ActionModel> {
    match (s, e) {
        (ConnState::Disconnected, ConnEventModel::Retry) => seq![ActionModel::Connect],
        (ConnState::Connecting, ConnEventModel::Opened) => seq![
            ActionModel::Emit(EventModel::Connected),
            ActionModel::SendFrame(wire_of("init"@, "/contacts"@)),
            ActionModel::SendFrame(wire_of("addr"@, "/sa"@)),
        ],
        (ConnState::Connecting, ConnEventModel::ConnectFailed) => seq![
            ActionModel::Emit(EventModel::Disconnected),
            ActionModel::Sleep,
        ],
        (ConnState::Connected, ConnEventModel::Closed) => seq![
            ActionModel::Emit(EventModel::Disconnected),
            ActionModel::Sleep,
        ],
        (ConnState::Connected, ConnEventModel::Frame(txt)) => match json_of(txt) {
            Some(j) => emits_of(decode_events(j)),
            None => Seq::empty(),
        },
        _ => Seq::empty(),
    }
}

/// One step of the session: the next phase and the actions to perform, in
/// order.
pub fn conn_step(s: ConnState, e: ConnEvent) -> (r: (ConnState, Vec<ConnAction>))
    ensures
        r.0 == conn_next(s, e@),
        action_views(r.1@) == conn_actions(s, e@),
{
    let mut actions: Vec<ConnAction> = Vec::new();
    let next = match (s, &e) {
        (ConnState::Disconnected, ConnEvent::Retry) => {
            actions.push(ConnAction::Connect);
            ConnState::Connecting
        },
        (ConnState::Connecting, ConnEvent::Opened) => {
            actions.push(ConnAction::Emit(SimplexEvent::Connected));
            let boot1 = ApiCommand::with_id("init", "/contacts");
            actions.push(ConnAction::SendFrame(crate::codec::encode_request(&boot1)));
            let boot2 = ApiCommand::with_id("addr", "/sa");
            actions.push(ConnAction::SendFrame(crate::codec::encode_request(&boot2)));
            ConnState::Connected
        },
        (ConnState::Connecting, ConnEvent::ConnectFailed) => {
            actions.push(ConnAction::Emit(SimplexEvent::Disconnected));
            actions.push(ConnAction::Sleep);
            ConnState::Disconnected
        },
        (ConnState::Connected, ConnEvent::Closed) => {
            actions.push(ConnAction::Emit(SimplexEvent::Disconnected));
            actions.push(ConnAction::Sleep);
            ConnState::Disconnected
        },
        (ConnState::Connected, ConnEvent::Frame(txt)) => {
            let decoded: Decoded = crate::codec::decode_text(txt.as_str());
            let mut evs = decoded.events;
            let ghost evm = event_views(evs@);
            proof {
                assert(event_views(evs@) =~= evm.skip(0));
            }
            while evs.len() > 0
                invariant
                    evs@.len() <= evm.len(),
                    event_views(evs@) =~= evm.skip(evm.len() - evs@.len()),
                    action_views(actions@) =~= emits_of(evm).take(evm.len() - evs@.len()),
                decreases evs@.len(),
            {
                let ghost k = evm.len() - evs@.len();
                let ghost preve = evs@;
                let ev = evs.remove(0);
                let ghost prev = actions@;
                actions.push(ConnAction::Emit(ev));
                proof {
                    assert(event_views(preve).len() == preve.len());
                    assert(ev@ == event_views(preve)[0]);
                    assert(ev@ == evm[k as int]);
                    assert(evs@ =~= preve.drop_first());
                    assert forall|j: int| 0 <= j < evs@.len() implies event_views(evs@)[j]
                        == evm.skip(k + 1)[j] by {
                        assert(event_views(evs@)[j] == evs@[j]@);
                        assert(evs@[j] == preve[j + 1]);
                        assert(event_views(preve)[j + 1] == preve[j + 1]@);
                    }
                    assert(event_views(evs@) =~= evm.skip(k + 1));
                    assert(action_views(prev).len() == prev.len());
                    assert(actions@ == prev.push(ConnAction::Emit(ev)));
                    assert(action_views(actions@) =~= emits_of(evm).take(k + 1));
                }
            }
            proof {
                assert(emits_of(evm).take(evm.len() as int) =~= emits_of(evm));
            }
            ConnState::Connected
        },
        _ => s,
    };
    proof {
        assert(action_views(actions@) =~= conn_actions(s, e@));
    }
    (next, actions)
}

/// The session never jumps from disconnected straight to connected: a
/// connection attempt always lies in between.
pub proof fn lemma_no_jump(e: ConnEventModel)
    ensures
        conn_next(ConnState::Disconnected, e) != ConnState::Connected,
{
}

} // verus!
