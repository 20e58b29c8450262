//! One session per open duplex connection: the inbound-message state machine.
//!
//! The session decides; whoever drives it performs the actions it returns
//! (replying on the connection, broadcasting through the registry,
//! publishing on the relay) and hands back what happened as events.
//!
//! Delivery policy: a control message is echoed to its sender directly,
//! broadcast to the other local viewers, and published on the relay tagged
//! with this process's id. A process forwards from the relay only frames that
//! other processes published and whose payload is a well-formed control
//! message, so each viewer receives each message once, whether or not the
//! relay works.
use vstd::prelude::*;
use crate::ConnId;
use crate::registry::{handles_of, registry_wf, lemma_occurrences_no_duplicates, lemma_without_excludes, lemma_without_occurrences, occurrences, without};
use crate::relay::{accepted, get_video_channel, lemma_relay_origin_filter, relay_frame, video_channel, Relay};
use crate::wire::{control_type, enriched_json, opt_view, source_id_text, ControlMessage, WatchPartyMessage};

verus! {

/// Where a session stands in its lifetime. A session is `Unauthenticated`
/// from the moment its connection is registered.
#[derive(Clone, Copy, PartialEq, Eq, Structural)]
pub enum SessionState {
    Unauthenticated,
    Authenticated { user_id: i32 },
    Closed,
}

/// A text frame, decoded by trying the known schemas in a fixed order.
pub enum Inbound {
    /// An authentication message whose token resolved to this user.
    Auth(i32),
    /// A playback-control message.
    Control(ControlMessage),
    /// Anything else, including an authentication message whose token did not verify.
    Opaque,
}

impl Inbound {
    /// The decoded frame, given what each schema made of it: `auth` is the
    /// user that an authentication message's token resolved to, `control` the
    /// frame read as a control message. Authentication is tried first.
    pub fn decode(auth: Option<i32>, control: Option<ControlMessage>) -> (r: Self)
        ensures
            match auth {
                Some(u) => r == Inbound::Auth(u),
                None => match control {
                    Some(m) => r == Inbound::Control(m),
                    None => r == Inbound::Opaque,
                },
            },
    {
        match auth {
            Some(u) => Inbound::Auth(u),
            None => match control {
                Some(m) => Inbound::Control(m),
                None => Inbound::Opaque,
            },
        }
    }
}

/// What happens to a session.
pub enum Event {
    /// A text frame: its text as received, and its decoding.
    Text { raw: String, inbound: Inbound },
    /// A ping frame with its payload.
    Ping(Vec<u8>),
    /// A close frame, or the end of the transport.
    Close,
    /// A frame from this session's relay subscription, with its payload read
    /// as an enriched control message (`None` when it is not one).
    Relay { frame: String, message: Option<WatchPartyMessage> },
    /// The relay could not be reached: the session goes on with local delivery only.
    RelayDown,
}

/// What a session asks its driver to do.
pub enum Action {
    /// Send this text to the session's own connection only.
    Reply(String),
    /// Answer a ping.
    Pong(Vec<u8>),
    /// Deliver to every connection registered for `video_id` but `origin`.
    Broadcast { video_id: i32, payload: String, origin: ConnId },
    /// Publish this frame on the relay channel.
    Publish { channel: String, frame: String },
    /// Close the connection; the driver then deregisters it and ends its
    /// relay subscription.
    Close,
}

/// The model of an action.
pub enum ActionView {
    Reply(Seq<char>),
    Pong(Seq<u8>),
    Broadcast { video_id: i32, payload: Seq<char>, origin: ConnId },
    Publish { channel: Seq<char>, frame: Seq<char> },
    Close,
}

impl View for Action {
    type V = ActionView;

    open spec fn view(&self) -> ActionView {
        match self {
            Action::Reply(t) => ActionView::Reply(t@),
            Action::Pong(p) => ActionView::Pong(p@),
            Action::Broadcast { video_id, payload, origin } => ActionView::Broadcast {
                video_id: *video_id,
                payload: payload@,
                origin: *origin,
            },
            Action::Publish { channel, frame } => ActionView::Publish {
                channel: channel@,
                frame: frame@,
            },
            Action::Close => ActionView::Close,
        }
    }
}

/// The models of a list of actions.
pub open spec fn action_views(v: Seq<Action>) -> Seq<ActionView> {
    v.map_values(|a: Action| a@)
}

/// The server-side state of one connection.
#[derive(Clone, Copy)]
pub struct Session {
    pub conn: ConnId,
    pub video_id: i32,
    pub state: SessionState,
    /// Whether control messages are also published on the relay.
    pub relay_enabled: bool,
}

/// The JSON text sent for `msg` from `user_id` on `video_id` at `now`.
pub open spec fn control_json(msg: ControlMessage, user_id: i32, video_id: i32, now: u64) -> Seq<
    char,
> {
    enriched_json(
        control_type(),
        msg.action@,
        opt_view(msg.time),
        user_id as int,
        video_id as int,
        source_id_text(user_id as int, now as nat),
    )
}

/// The actions for a control message from an authenticated user: the echo to
/// the sender, the local broadcast that leaves the sender out, and, while the
/// relay is in use, the publication for the other processes.
pub open spec fn control_actions(
    s: Session,
    user_id: i32,
    msg: ControlMessage,
    now: u64,
    instance: u64,
) -> Seq<ActionView> {
    let j = control_json(msg, user_id, s.video_id, now);
    let local = seq![
        ActionView::Reply(j),
        ActionView::Broadcast { video_id: s.video_id, payload: j, origin: s.conn },
    ];
    if s.relay_enabled {
        local.push(
            ActionView::Publish {
                channel: video_channel(s.video_id as int),
                frame: relay_frame(instance as nat, j),
            },
        )
    } else {
        local
    }
}

/// The actions a session takes on an event.
pub open spec fn session_actions(s: Session, ev: Event, now: u64, instance: u64) -> Seq<
    ActionView,
> {
    if s.state == SessionState::Closed {
        seq![]
    } else {
        match ev {
            Event::Ping(p) => seq![ActionView::Pong(p@)],
            Event::Close => seq![ActionView::Close],
            Event::RelayDown => seq![],
            Event::Relay { frame, message } => match (accepted(instance as nat, frame@), message) {
                (Some(_), Some(m)) => if m.wf() {
                    seq![ActionView::Reply(m.json())]
                } else {
                    seq![]
                },
                _ => seq![],
            },
            Event::Text { raw, inbound } => match inbound {
                Inbound::Auth(_) => seq![],
                Inbound::Control(m) => match s.state {
                    SessionState::Authenticated { user_id } => if m.wf() {
                        control_actions(s, user_id, m, now, instance)
                    } else {
                        seq![ActionView::Reply(raw@)]
                    },
                    _ => seq![],
                },
                Inbound::Opaque => match s.state {
                    SessionState::Authenticated { .. } => seq![ActionView::Reply(raw@)],
                    _ => seq![],
                },
            },
        }
    }
}

/// The session after an event.
pub open spec fn next_session(s: Session, ev: Event) -> Session {
    if s.state == SessionState::Closed {
        s
    } else {
        match ev {
            Event::Close => Session {
                conn: s.conn,
                video_id: s.video_id,
                state: SessionState::Closed,
                relay_enabled: s.relay_enabled,
            },
            Event::RelayDown => Session {
                conn: s.conn,
                video_id: s.video_id,
                state: s.state,
                relay_enabled: false,
            },
            Event::Text { inbound: Inbound::Auth(u), .. } => Session {
                conn: s.conn,
                video_id: s.video_id,
                state: SessionState::Authenticated { user_id: u },
                relay_enabled: s.relay_enabled,
            },
            _ => s,
        }
    }
}

impl Session {
    /// The session of a connection that just opened on `video_id`.
    pub fn new(conn: ConnId, video_id: i32, relay_enabled: bool) -> (r: Self)
        ensures
            r.conn == conn,
            r.video_id == video_id,
            r.state == SessionState::Unauthenticated,
            r.relay_enabled == relay_enabled,
    {
        Session { conn, video_id, state: SessionState::Unauthenticated, relay_enabled }
    }

    /// Whether the session has a verified user.
    pub fn is_authenticated(&self) -> (r: bool)
        ensures
            r == (self.state is Authenticated),
    {
        match self.state {
            SessionState::Authenticated { .. } => true,
            _ => false,
        }
    }

    /// Takes one event at time `now` (milliseconds since the epoch) and
    /// returns what to do, in order.
    pub fn handle(&mut self, ev: Event, now: u64, relay: &Relay) -> (r: Vec<Action>)
        ensures
            *final(self) == next_session(*old(self), ev),
            action_views(r@) == session_actions(*old(self), ev, now, relay.instance),
    {
        let ghost ev0 = ev;
        let mut acts: Vec<Action> = Vec::new();
        if self.state == SessionState::Closed {
            assert(action_views(acts@) =~= session_actions(*old(self), ev0, now, relay.instance));
            return acts;
        }
        match ev {
            Event::Ping(p) => {
                acts.push(Action::Pong(p));
            },
            Event::Close => {
                self.state = SessionState::Closed;
                acts.push(Action::Close);
            },
            Event::RelayDown => {
                self.relay_enabled = false;
            },
            Event::Relay { frame, message } => {
                match (relay.accept(frame.as_str()), message) {
                    (Some(_), Some(m)) => {
                        if m.is_well_formed() {
                            acts.push(Action::Reply(m.to_json()));
                        }
                    },
                    _ => {},
                }
            },
            Event::Text { raw, inbound } => {
                match inbound {
                    Inbound::Auth(u) => {
                        self.state = SessionState::Authenticated { user_id: u };
                    },
                    Inbound::Control(m) => {
                        match self.state {
                            SessionState::Authenticated { user_id } => {
                                if m.is_well_formed() {
                                    acts = self.control(user_id, &m, now, relay);
                                } else {
                                    acts.push(Action::Reply(raw));
                                }
                            },
                            _ => {},
                        }
                    },
                    Inbound::Opaque => {
                        match self.state {
                            SessionState::Authenticated { .. } => acts.push(Action::Reply(raw)),
                            _ => {},
                        }
                    },
                }
            },
        }
        assert(action_views(acts@) =~= session_actions(*old(self), ev0, now, relay.instance));
        acts
    }

    fn control(&self, user_id: i32, msg: &ControlMessage, now: u64, relay: &Relay) -> (r: Vec<
        Action,
    >)
        ensures
            action_views(r@) == control_actions(*self, user_id, *msg, now, relay.instance),
    {
        let m = WatchPartyMessage::enriched(msg, user_id, self.video_id, now);
        let json = m.to_json();
        let mut acts: Vec<Action> = Vec::new();
        acts.push(Action::Reply(json.clone()));
        acts.push(
            Action::Broadcast { video_id: self.video_id, payload: json.clone(), origin: self.conn },
        );
        if self.relay_enabled {
            acts.push(
                Action::Publish {
                    channel: get_video_channel(self.video_id),
                    frame: relay.frame(json.as_str()),
                },
            );
        }
        assert(action_views(acts@) =~= control_actions(*self, user_id, *msg, now, relay.instance));
        acts
    }
}

/// A well-formed control message from an authenticated session reaches
/// every other connection of its video exactly once and its sender once: the
/// echo is the only reply, the one local broadcast leaves the sender out and
/// reaches each other connection registered for the video once, and the
/// relay frame is dropped by the sender's own process and passed on by every
/// other process.
pub proof fn lemma_control_reaches_each_peer_once(
    s: Session,
    raw: String,
    msg: ControlMessage,
    now: u64,
    instance: u64,
    registry: Map<i32, Seq<ConnId>>,
)
    requires
        s.state is Authenticated,
        msg.wf(),
        registry_wf(registry),
        handles_of(registry, s.video_id).contains(s.conn),
    ensures
        ({
            let acts = session_actions(
                s,
                Event::Text { raw, inbound: Inbound::Control(msg) },
                now,
                instance,
            );
            let j = control_json(msg, s.state->user_id, s.video_id, now);
            let peers = without(handles_of(registry, s.video_id), s.conn);
            &&& acts[0] == ActionView::Reply(j)
            &&& acts[1] == ActionView::Broadcast { video_id: s.video_id, payload: j, origin: s.conn }
            &&& forall|i: int| 1 <= i < acts.len() ==> !(#[trigger] acts[i] is Reply)
            &&& forall|i: int| 2 <= i < acts.len() ==> !(#[trigger] acts[i] is Broadcast)
            &&& occurrences(peers, s.conn) == 0
            &&& forall|c: ConnId|
                c != s.conn && handles_of(registry, s.video_id).contains(c) ==> #[trigger] occurrences(
                    peers,
                    c,
                ) == 1
            &&& peers.len() == handles_of(registry, s.video_id).len() - 1
            &&& forall|i: int|
                2 <= i < acts.len() ==> {
                    &&& #[trigger] acts[i] is Publish
                    &&& accepted(instance as nat, acts[i]->frame) == None::<Seq<char>>
                    &&& forall|other: u64|
                        other != instance ==> #[trigger] accepted(other as nat, acts[i]->frame)
                            == Some(j)
                }
        }),
{
    let h = handles_of(registry, s.video_id);
    let j = control_json(msg, s.state->user_id, s.video_id, now);
    assert(registry.contains_key(s.video_id));
    assert(h.no_duplicates());
    lemma_without_occurrences(h, s.conn, s.conn);
    lemma_occurrences_no_duplicates(h, s.conn);
    crate::registry::lemma_without_len(h, s.conn);
    assert forall|c: ConnId| c != s.conn && h.contains(c) implies #[trigger] occurrences(
        without(h, s.conn),
        c,
    ) == 1 by {
        lemma_without_occurrences(h, s.conn, c);
        lemma_occurrences_no_duplicates(h, c);
    }
    lemma_relay_origin_filter(instance as nat, instance as nat, j);
    assert forall|other: u64| other != instance implies #[trigger] accepted(
        other as nat,
        relay_frame(instance as nat, j),
    ) == Some(j) by {
        lemma_relay_origin_filter(other as nat, instance as nat, j);
    }
}

/// A session that has not authenticated never asks for a broadcast or a
/// publication, whatever it receives.
pub proof fn lemma_unauthenticated_never_broadcasts(s: Session, ev: Event, now: u64, instance: u64)
    requires
        !(s.state is Authenticated),
    ensures
        forall|i: int|
            0 <= i < session_actions(s, ev, now, instance).len() ==> {
                &&& !(#[trigger] session_actions(s, ev, now, instance)[i] is Broadcast)
                &&& !(session_actions(s, ev, now, instance)[i] is Publish)
            },
{
}

/// Messages of a session never come back to it through the local
/// broadcaster: every broadcast it asks for names it as the origin, and the
/// origin is not among the targets. Nor does the relay bring back what its
/// own process published.
pub proof fn lemma_origin_excluded(
    s: Session,
    ev: Event,
    now: u64,
    instance: u64,
    registry: Map<i32, Seq<ConnId>>,
    payload: Seq<char>,
)
    ensures
        forall|i: int|
            0 <= i < session_actions(s, ev, now, instance).len() && (
            #[trigger] session_actions(s, ev, now, instance)[i] is Broadcast) ==> {
                &&& session_actions(s, ev, now, instance)[i]->Broadcast_origin == s.conn
                &&& !without(
                    handles_of(
                        registry,
                        session_actions(s, ev, now, instance)[i]->Broadcast_video_id,
                    ),
                    s.conn,
                ).contains(s.conn)
            },
        accepted(instance as nat, relay_frame(instance as nat, payload)) == None::<Seq<char>>,
{
    lemma_relay_origin_filter(instance as nat, instance as nat, payload);
    assert forall|i: int|
        0 <= i < session_actions(s, ev, now, instance).len() && (
        #[trigger] session_actions(s, ev, now, instance)[i] is Broadcast) implies !without(
        handles_of(registry, session_actions(s, ev, now, instance)[i]->Broadcast_video_id),
        s.conn,
    ).contains(s.conn) by {
        lemma_without_excludes(
            handles_of(registry, session_actions(s, ev, now, instance)[i]->Broadcast_video_id),
            s.conn,
        );
    }
}

/// Without the relay, local viewers stay in sync. A session told that the
/// relay is down stays open, keeps its state and sends nothing. A
/// well-formed control message from an authenticated session then gets the
/// same echo and local broadcast as with the relay, only no publication. And
/// that broadcast reaches, exactly once, every other viewer registered for
/// the video, whether or not that viewer's relay works.
pub proof fn lemma_local_sync_without_broker(
    s: Session,
    viewer: Session,
    raw: String,
    msg: ControlMessage,
    now: u64,
    instance: u64,
    registry: Map<i32, Seq<ConnId>>,
)
    requires
        s.state is Authenticated,
        msg.wf(),
        registry_wf(registry),
        viewer.video_id == s.video_id,
        viewer.conn != s.conn,
        viewer.state != SessionState::Closed,
        handles_of(registry, s.video_id).contains(viewer.conn),
    ensures
        ({
            let down = next_session(s, Event::RelayDown);
            let viewer_down = next_session(viewer, Event::RelayDown);
            let ev = Event::Text { raw, inbound: Inbound::Control(msg) };
            let acts = session_actions(down, ev, now, instance);
            &&& down.state == s.state
            &&& !down.relay_enabled
            &&& session_actions(s, Event::RelayDown, now, instance).len() == 0
            &&& viewer_down.state == viewer.state
            &&& session_actions(viewer, Event::RelayDown, now, instance).len() == 0
            &&& acts == session_actions(s, ev, now, instance).take(2)
            &&& acts.len() == 2
            &&& acts[1] == ActionView::Broadcast {
                video_id: s.video_id,
                payload: control_json(msg, s.state->user_id, s.video_id, now),
                origin: s.conn,
            }
            &&& occurrences(without(handles_of(registry, s.video_id), s.conn), viewer.conn) == 1
        }),
{
    let down = next_session(s, Event::RelayDown);
    let ev = Event::Text { raw, inbound: Inbound::Control(msg) };
    assert(session_actions(down, ev, now, instance) =~= session_actions(s, ev, now, instance).take(
        2,
    ));
    let h = handles_of(registry, s.video_id);
    assert(registry.contains_key(s.video_id));
    lemma_without_occurrences(h, s.conn, viewer.conn);
    lemma_occurrences_no_duplicates(h, viewer.conn);
}

} // verus!
