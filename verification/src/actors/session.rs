//! The session: one per live connection. It registers with the registry,
//! watches the liveness of its peer, hands decoded frames to the registry and
//! unregisters when the connection ends.
//!
//! The session does no I/O and reads no clock. Each method takes what has
//! happened, with the time at which it happened, and returns what is to be
//! done, in order.

use crate::actors::server::{ClientMessage, ClientMessageView, Disconnect, Typing, WsMessage};
use crate::ids::Id;
use crate::wire::{decoded, outcome_view, DecodeError, WsClientEvent, WsClientEventView};
use vstd::prelude::*;

verus! {

/// A reading of a monotonic clock, in nanoseconds since an origin that the
/// caller picks once.
pub type Nanos = u128;

/// How often the liveness of the peer is checked: every 5 seconds.
pub const HEARTBEAT_INTERVAL: Nanos = 5_000_000_000;

/// How long a peer may stay silent before its session is closed: 10 seconds.
pub const CLIENT_TIMEOUT: Nanos = 10_000_000_000;

/// Where a session stands in its life.
#[derive(Clone, Copy, Debug, PartialEq, Eq, Structural)]
pub enum SessionState {
    /// Created; the registry has not yet answered the request to register.
    Connecting,
    /// Registered; frames and heartbeat ticks are served.
    Active,
    /// On its way out; the registry has not yet been told.
    Closing,
    /// Ended. Nothing happens any more.
    Closed,
}

/// Why a connection is closed, as a close frame carries it.
#[derive(Debug, PartialEq, Eq)]
pub struct CloseReason {
    pub code: u16,
    pub description: Option<String>,
}

/// Mathematical model of a [`CloseReason`].
pub struct CloseReasonView {
    pub code: u16,
    pub description: Option<Seq<char>>,
}

impl View for CloseReason {
    type V = CloseReasonView;

    open spec fn view(&self) -> CloseReasonView {
        CloseReasonView { code: self.code, description: self.description.deep_view() }
    }
}

impl DeepView for CloseReason {
    type V = CloseReasonView;

    open spec fn deep_view(&self) -> CloseReasonView {
        self@
    }
}

/// A frame read from the socket.
#[derive(Debug, PartialEq, Eq)]
pub enum Frame {
    Text(String),
    Binary,
    Continuation,
    Ping(Vec<u8>),
    Pong(Vec<u8>),
    Close(Option<CloseReason>),
    Nop,
}

/// Mathematical model of a [`Frame`].
pub enum FrameView {
    Text(Seq<char>),
    Binary,
    Continuation,
    Ping(Seq<u8>),
    Pong(Seq<u8>),
    Close(Option<CloseReasonView>),
    Nop,
}

impl View for Frame {
    type V = FrameView;

    open spec fn view(&self) -> FrameView {
        match self {
            Frame::Text(text) => FrameView::Text(text@),
            Frame::Binary => FrameView::Binary,
            Frame::Continuation => FrameView::Continuation,
            Frame::Ping(payload) => FrameView::Ping(payload@),
            Frame::Pong(payload) => FrameView::Pong(payload@),
            Frame::Close(reason) => FrameView::Close(reason.deep_view()),
            Frame::Nop => FrameView::Nop,
        }
    }
}

/// The socket could not make a frame out of what it read.
#[derive(Clone, Copy, Debug, PartialEq, Eq, Structural)]
pub struct ProtocolError;

/// Mathematical model of what the socket hands to a session.
pub open spec fn frame_view(msg: Result<Frame, ProtocolError>) -> Result<FrameView, ProtocolError> {
    match msg {
        Ok(frame) => Ok(frame@),
        Err(error) => Err(error),
    }
}

/// Something the owner of a session has to do for it.
#[derive(Debug, PartialEq, Eq)]
pub enum SessionAction {
    /// Ask the registry to register this session for `user_id`, and report
    /// the answer with [`WebSocketSession::registered`].
    Register { user_id: Id },
    /// Tell the registry that this session has ended.
    Unregister(Disconnect),
    /// Hand a chat message to the registry.
    RouteMessage(ClientMessage),
    /// Hand a typing notice to the registry.
    RouteTyping(Typing),
    /// Start the heartbeat clock: call [`WebSocketSession::hb`] every
    /// `interval` from now on.
    StartHeartbeat { interval: Nanos },
    /// Cancel the heartbeat clock.
    StopHeartbeat,
    /// Send a ping frame with an empty payload.
    Ping,
    /// Send a pong frame with this payload.
    Pong(Vec<u8>),
    /// Send a text frame with this text.
    Text(String),
    /// Send a close frame with this reason.
    Close(Option<CloseReason>),
    /// End the connection, and call [`WebSocketSession::stopping`] on the
    /// way.
    Stop,
    /// Log that a text frame was not understood. Nothing is sent back.
    Warn(DecodeError),
}

/// Mathematical model of a [`SessionAction`].
pub enum ActionView {
    Register { user_id: Id },
    Unregister(Disconnect),
    RouteMessage(ClientMessageView),
    RouteTyping(Typing),
    StartHeartbeat { interval: Nanos },
    StopHeartbeat,
    Ping,
    Pong(Seq<u8>),
    Text(Seq<char>),
    Close(Option<CloseReasonView>),
    Stop,
    Warn(DecodeError),
}

impl View for SessionAction {
    type V = ActionView;

    open spec fn view(&self) -> ActionView {
        match self {
            SessionAction::Register { user_id } => ActionView::Register { user_id: *user_id },
            SessionAction::Unregister(msg) => ActionView::Unregister(*msg),
            SessionAction::RouteMessage(msg) => ActionView::RouteMessage(msg@),
            SessionAction::RouteTyping(msg) => ActionView::RouteTyping(*msg),
            SessionAction::StartHeartbeat { interval } => ActionView::StartHeartbeat {
                interval: *interval,
            },
            SessionAction::StopHeartbeat => ActionView::StopHeartbeat,
            SessionAction::Ping => ActionView::Ping,
            SessionAction::Pong(payload) => ActionView::Pong(payload@),
            SessionAction::Text(text) => ActionView::Text(text@),
            SessionAction::Close(reason) => ActionView::Close(reason.deep_view()),
            SessionAction::Stop => ActionView::Stop,
            SessionAction::Warn(error) => ActionView::Warn(*error),
        }
    }
}

impl DeepView for SessionAction {
    type V = ActionView;

    open spec fn deep_view(&self) -> ActionView {
        self@
    }
}

/// Mathematical model of a [`WebSocketSession`].
pub struct SessionModel {
    pub user_id: Id,
    /// When the peer last gave a sign of life.
    pub hb: Nanos,
    pub state: SessionState,
}

/// The outcome of one step of a session: the session after it, and what is to
/// be done, in order.
pub struct Step {
    pub next: SessionModel,
    pub actions: Seq<ActionView>,
}

/// The time between the last sign of life and `now`; zero where the clock
/// reads earlier than the sign.
pub open spec fn silence(hb: Nanos, now: Nanos) -> int {
    if now >= hb {
        now - hb
    } else {
        0
    }
}

/// What is done with a decoded text frame: an event goes to the registry in
/// the name of `user_id`, a failure is logged.
pub open spec fn forwarded(user_id: Id, event: Result<WsClientEventView, DecodeError>) -> ActionView {
    match event {
        Ok(WsClientEventView::Message { conversation_id, content }) => ActionView::RouteMessage(
            ClientMessageView { sender_id: user_id, conversation_id, content },
        ),
        Ok(WsClientEventView::Typing { conversation_id, is_typing }) => ActionView::RouteTyping(
            Typing { sender_id: user_id, conversation_id, is_typing },
        ),
        Err(error) => ActionView::Warn(error),
    }
}

impl SessionModel {
    /// This session in another state.
    pub open spec fn moved_to(self, state: SessionState) -> SessionModel {
        SessionModel { state, ..self }
    }

    /// This session after a sign of life at `now`.
    pub open spec fn seen_at(self, now: Nanos) -> SessionModel {
        SessionModel { hb: now, ..self }
    }

    /// Nothing happens.
    pub open spec fn idle(self) -> Step {
        Step { next: self, actions: Seq::empty() }
    }

    /// The session has been created: it asks to be registered.
    pub open spec fn on_started(self) -> Step {
        if self.state == SessionState::Connecting {
            Step { next: self, actions: seq![ActionView::Register { user_id: self.user_id }] }
        } else {
            self.idle()
        }
    }

    /// The registry has answered the request to register. Accepted, the
    /// session becomes active and its heartbeat clock starts; refused, it
    /// ends at once.
    pub open spec fn on_registered(self, accepted: bool) -> Step {
        if self.state != SessionState::Connecting {
            self.idle()
        } else if accepted {
            Step {
                next: self.moved_to(SessionState::Active),
                actions: seq![ActionView::StartHeartbeat { interval: HEARTBEAT_INTERVAL }],
            }
        } else {
            Step { next: self.moved_to(SessionState::Closed), actions: seq![ActionView::Stop] }
        }
    }

    /// The heartbeat clock has ticked at `now`. A peer that has been silent
    /// for more than the timeout loses its session; any other is pinged.
    pub open spec fn on_heartbeat(self, now: Nanos) -> Step {
        if self.state != SessionState::Active {
            self.idle()
        } else if silence(self.hb, now) > CLIENT_TIMEOUT {
            Step { next: self.moved_to(SessionState::Closing), actions: seq![ActionView::Stop] }
        } else {
            Step { next: self, actions: seq![ActionView::Ping] }
        }
    }

    /// The socket has produced a frame, or failed to, at `now`.
    ///
    /// A ping, a pong and a text frame are signs of life. A ping is answered
    /// with a pong; a text frame is decoded and goes to the registry, or is
    /// logged where it cannot be decoded, and the session stays active either
    /// way. A close frame is echoed and ends the session, and so does
    /// anything else, without the echo.
    pub open spec fn on_frame(self, frame: Result<FrameView, ProtocolError>, now: Nanos) -> Step {
        if self.state != SessionState::Active {
            self.idle()
        } else {
            match frame {
                Ok(FrameView::Ping(payload)) => Step {
                    next: self.seen_at(now),
                    actions: seq![ActionView::Pong(payload)],
                },
                Ok(FrameView::Pong(_)) => Step { next: self.seen_at(now), actions: Seq::empty() },
                Ok(FrameView::Text(text)) => Step {
                    next: self.seen_at(now),
                    actions: seq![forwarded(self.user_id, decoded(text))],
                },
                Ok(FrameView::Close(reason)) => Step {
                    next: self.moved_to(SessionState::Closing),
                    actions: seq![ActionView::Close(reason), ActionView::Stop],
                },
                _ => Step {
                    next: self.moved_to(SessionState::Closing),
                    actions: seq![ActionView::Stop],
                },
            }
        }
    }

    /// The registry has routed a frame to this session. It is written to the
    /// socket as it is, unless the session is on its way out.
    pub open spec fn on_outbound(self, text: Seq<char>) -> Step {
        if self.state == SessionState::Closing || self.state == SessionState::Closed {
            self.idle()
        } else {
            Step { next: self, actions: seq![ActionView::Text(text)] }
        }
    }

    /// The session is stopping. Unless it has ended before, it ends now: its
    /// heartbeat clock, if it has been started, is cancelled, and the
    /// registry is told that the session has ended.
    pub open spec fn on_stopping(self) -> Step {
        if self.state == SessionState::Closed {
            self.idle()
        } else if self.state == SessionState::Connecting {
            Step {
                next: self.moved_to(SessionState::Closed),
                actions: seq![ActionView::Unregister(Disconnect { user_id: self.user_id })],
            }
        } else {
            Step {
                next: self.moved_to(SessionState::Closed),
                actions: seq![
                    ActionView::StopHeartbeat,
                    ActionView::Unregister(Disconnect { user_id: self.user_id }),
                ],
            }
        }
    }
}

/// Something that happens to a session.
#[derive(Debug, PartialEq, Eq)]
pub enum SessionEvent {
    /// The session has been created.
    Started,
    /// The registry has answered the request to register.
    Registered { accepted: bool },
    /// The heartbeat clock has ticked.
    Heartbeat { now: Nanos },
    /// The socket has produced a frame, or failed to.
    Frame { frame: Result<Frame, ProtocolError>, now: Nanos },
    /// The registry has routed a frame to this session.
    Outbound(WsMessage),
    /// The session is stopping.
    Stopping,
}

/// Mathematical model of a [`SessionEvent`].
pub enum EventView {
    Started,
    Registered { accepted: bool },
    Heartbeat { now: Nanos },
    Frame { frame: Result<FrameView, ProtocolError>, now: Nanos },
    Outbound(Seq<char>),
    Stopping,
}

impl View for SessionEvent {
    type V = EventView;

    open spec fn view(&self) -> EventView {
        match self {
            SessionEvent::Started => EventView::Started,
            SessionEvent::Registered { accepted } => EventView::Registered { accepted: *accepted },
            SessionEvent::Heartbeat { now } => EventView::Heartbeat { now: *now },
            SessionEvent::Frame { frame, now } => EventView::Frame {
                frame: frame_view(*frame),
                now: *now,
            },
            SessionEvent::Outbound(msg) => EventView::Outbound(msg@),
            SessionEvent::Stopping => EventView::Stopping,
        }
    }
}

impl SessionModel {
    /// One step of the session: what `event` does to it.
    pub open spec fn step(self, event: EventView) -> Step {
        match event {
            EventView::Started => self.on_started(),
            EventView::Registered { accepted } => self.on_registered(accepted),
            EventView::Heartbeat { now } => self.on_heartbeat(now),
            EventView::Frame { frame, now } => self.on_frame(frame, now),
            EventView::Outbound(text) => self.on_outbound(text),
            EventView::Stopping => self.on_stopping(),
        }
    }

    /// The session after `events`, one after the other, with everything that
    /// was to be done on the way.
    pub open spec fn run(self, events: Seq<EventView>) -> Step
        decreases events.len(),
    {
        if events.len() == 0 {
            self.idle()
        } else {
            let before = self.run(events.drop_last());
            let last = before.next.step(events.last());
            Step { next: last.next, actions: before.actions + last.actions }
        }
    }
}

/// How many of `actions` tell the registry that the session has ended.
pub open spec fn unregistrations(actions: Seq<ActionView>) -> nat
    decreases actions.len(),
{
    if actions.len() == 0 {
        0
    } else {
        unregistrations(actions.drop_last()) + if actions.last() is Unregister {
            1nat
        } else {
            0nat
        }
    }
}

/// The session of one connection: the user it belongs to, when its peer
/// last gave a sign of life, and where it stands.
#[derive(Debug, PartialEq, Eq)]
pub struct WebSocketSession {
    user_id: Id,
    hb: Nanos,
    state: SessionState,
}

impl View for WebSocketSession {
    type V = SessionModel;

    closed spec fn view(&self) -> SessionModel {
        SessionModel { user_id: self.user_id, hb: self.hb, state: self.state }
    }
}

impl WebSocketSession {
    /// A session for `user_id`, created at `now`, that has yet to register.
    pub fn new(user_id: Id, now: Nanos) -> (session: Self)
        ensures
            session@ == (SessionModel { user_id, hb: now, state: SessionState::Connecting }),
    {
        WebSocketSession { user_id, hb: now, state: SessionState::Connecting }
    }

    /// The user this session belongs to.
    pub fn user_id(&self) -> (user_id: Id)
        ensures
            user_id == self@.user_id,
    {
        self.user_id
    }

    /// When the peer last gave a sign of life.
    pub fn last_seen(&self) -> (hb: Nanos)
        ensures
            hb == self@.hb,
    {
        self.hb
    }

    /// Where this session stands.
    pub fn state(&self) -> (state: SessionState)
        ensures
            state == self@.state,
    {
        self.state
    }

    /// What is done with a decoded text frame.
    pub fn forward(&self, event: Result<WsClientEvent, DecodeError>) -> (action: SessionAction)
        ensures
            action@ == forwarded(self@.user_id, outcome_view(event)),
    {
        match event {
            Ok(WsClientEvent::Message(payload)) => SessionAction::RouteMessage(
                ClientMessage {
                    sender_id: self.user_id,
                    conversation_id: payload.conversation_id,
                    content: payload.content,
                },
            ),
            Ok(WsClientEvent::Typing(payload)) => SessionAction::RouteTyping(
                Typing {
                    sender_id: self.user_id,
                    conversation_id: payload.conversation_id,
                    is_typing: payload.is_typing,
                },
            ),
            Err(error) => SessionAction::Warn(error),
        }
    }

    /// The session has been created: it asks to be registered.
    pub fn started(&self) -> (actions: Vec<SessionAction>)
        ensures
            actions.deep_view() == self@.on_started().actions,
    {
        match self.state {
            SessionState::Connecting => vec![SessionAction::Register { user_id: self.user_id }],
            _ => Vec::new(),
        }
    }

    /// The registry has answered the request to register.
    pub fn registered(&mut self, accepted: bool) -> (actions: Vec<SessionAction>)
        ensures
            final(self)@ == old(self)@.on_registered(accepted).next,
            actions.deep_view() == old(self)@.on_registered(accepted).actions,
    {
        match self.state {
            SessionState::Connecting => {
                if accepted {
                    self.state = SessionState::Active;
                    vec![SessionAction::StartHeartbeat { interval: HEARTBEAT_INTERVAL }]
                } else {
                    self.state = SessionState::Closed;
                    vec![SessionAction::Stop]
                }
            },
            _ => Vec::new(),
        }
    }

    /// The heartbeat clock has ticked at `now`.
    pub fn hb(&mut self, now: Nanos) -> (actions: Vec<SessionAction>)
        ensures
            final(self)@ == old(self)@.on_heartbeat(now).next,
            actions.deep_view() == old(self)@.on_heartbeat(now).actions,
    {
        match self.state {
            SessionState::Active => {
                let silent: Nanos = if now >= self.hb {
                    now - self.hb
                } else {
                    0
                };
                if silent > CLIENT_TIMEOUT {
                    self.state = SessionState::Closing;
                    vec![SessionAction::Stop]
                } else {
                    vec![SessionAction::Ping]
                }
            },
            _ => Vec::new(),
        }
    }

    /// The socket has produced a frame, or failed to, at `now`.
    pub fn handle(&mut self, msg: Result<Frame, ProtocolError>, now: Nanos) -> (actions: Vec<
        SessionAction,
    >)
        ensures
            final(self)@ == old(self)@.on_frame(frame_view(msg), now).next,
            actions.deep_view() == old(self)@.on_frame(frame_view(msg), now).actions,
    {
        match self.state {
            SessionState::Active => {},
            _ => { return Vec::new(); },
        }
        match msg {
            Ok(Frame::Ping(payload)) => {
                self.hb = now;
                vec![SessionAction::Pong(payload)]
            },
            Ok(Frame::Pong(_)) => {
                self.hb = now;
                Vec::new()
            },
            Ok(Frame::Text(text)) => {
                self.hb = now;
                let event = WsClientEvent::decode(text.as_str());
                vec![self.forward(event)]
            },
            Ok(Frame::Close(reason)) => {
                self.state = SessionState::Closing;
                vec![SessionAction::Close(reason), SessionAction::Stop]
            },
            _ => {
                self.state = SessionState::Closing;
                vec![SessionAction::Stop]
            },
        }
    }

    /// The registry has routed a frame to this session.
    pub fn deliver(&self, msg: WsMessage) -> (actions: Vec<SessionAction>)
        ensures
            actions.deep_view() == self@.on_outbound(msg@).actions,
    {
        match self.state {
            SessionState::Closing | SessionState::Closed => Vec::new(),
            _ => vec![SessionAction::Text(msg.0)],
        }
    }

    /// The session is stopping.
    pub fn stopping(&mut self) -> (actions: Vec<SessionAction>)
        ensures
            final(self)@ == old(self)@.on_stopping().next,
            actions.deep_view() == old(self)@.on_stopping().actions,
    {
        match self.state {
            SessionState::Closed => Vec::new(),
            SessionState::Connecting => {
                self.state = SessionState::Closed;
                vec![SessionAction::Unregister(Disconnect { user_id: self.user_id })]
            },
            _ => {
                self.state = SessionState::Closed;
                vec![
                    SessionAction::StopHeartbeat,
                    SessionAction::Unregister(Disconnect { user_id: self.user_id }),
                ]
            },
        }
    }
}

impl WebSocketSession {
    /// One step of the session: does to it what `event` asks for, and returns
    /// what is to be done.
    pub fn step(&mut self, event: SessionEvent) -> (actions: Vec<SessionAction>)
        ensures
            final(self)@ == old(self)@.step(event@).next,
            actions.deep_view() == old(self)@.step(event@).actions,
    {
        match event {
            SessionEvent::Started => self.started(),
            SessionEvent::Registered { accepted } => self.registered(accepted),
            SessionEvent::Heartbeat { now } => self.hb(now),
            SessionEvent::Frame { frame, now } => self.handle(frame, now),
            SessionEvent::Outbound(msg) => self.deliver(msg),
            SessionEvent::Stopping => self.stopping(),
        }
    }
}

/// Counting distributes over concatenation.
proof fn unregistrations_add(first: Seq<ActionView>, second: Seq<ActionView>)
    ensures
        unregistrations(first + second) == unregistrations(first) + unregistrations(second),
    decreases second.len(),
{
    if second.len() == 0 {
        assert(first + second =~= first);
    } else {
        unregistrations_add(first, second.drop_last());
        assert((first + second).drop_last() =~= first + second.drop_last());
        assert((first + second).last() == second.last());
    }
}

/// Only stopping a session that has not ended tells the registry that it has.
proof fn step_unregisters(session: SessionModel, event: EventView)
    ensures
        unregistrations(session.step(event).actions) == if event is Stopping && session.state
            != SessionState::Closed {
            1nat
        } else {
            0nat
        },
{
    let actions = session.step(event).actions;
    reveal_with_fuel(unregistrations, 3);
    if actions.len() == 2 {
        assert(actions.drop_last().len() == 1);
        assert(actions.drop_last().drop_last().len() == 0);
    } else if actions.len() == 1 {
        assert(actions.drop_last().len() == 0);
    }
}

/// A session whose peer has been silent for more than the timeout is closed
/// by the next heartbeat tick: the tick stops it, and stopping cancels the
/// heartbeat clock and tells the registry, once, that the user is gone. A
/// session whose peer has given a sign of life within the timeout is pinged
/// and stays active.
pub proof fn heartbeat_timeout(session: SessionModel, now: Nanos)
    requires
        session.state == SessionState::Active,
    ensures
        silence(session.hb, now) > CLIENT_TIMEOUT ==> {
            let tick = session.on_heartbeat(now);
            let end = tick.next.on_stopping();
            &&& tick.next.state == SessionState::Closing
            &&& tick.actions == seq![ActionView::Stop]
            &&& end.next.state == SessionState::Closed
            &&& end.actions == seq![
                ActionView::StopHeartbeat,
                ActionView::Unregister(Disconnect { user_id: session.user_id }),
            ]
        },
        silence(session.hb, now) <= CLIENT_TIMEOUT ==> {
            let tick = session.on_heartbeat(now);
            &&& tick.next == session
            &&& tick.actions == seq![ActionView::Ping]
        },
{
}

/// A closed session stays closed and asks for nothing, whatever happens.
pub proof fn closed_is_final(session: SessionModel, events: Seq<EventView>)
    requires
        session.state == SessionState::Closed,
    ensures
        session.run(events) == session.idle(),
    decreases events.len(),
{
    if events.len() > 0 {
        closed_is_final(session, events.drop_last());
        assert(Seq::<ActionView>::empty() + Seq::<ActionView>::empty() =~= Seq::<
            ActionView,
        >::empty());
    }
}

/// Over its whole life a session tells the registry at most once that it has
/// ended, whatever happens to it and in whatever order; and a session that
/// was registered and has ended has told it exactly once.
pub proof fn unregisters_once(session: SessionModel, events: Seq<EventView>)
    ensures
        unregistrations(session.run(events).actions) <= 1,
        session.state == SessionState::Closed ==> unregistrations(session.run(events).actions)
            == 0,
        session.run(events).next.state != SessionState::Closed ==> unregistrations(
            session.run(events).actions,
        ) == 0,
        (session.state == SessionState::Active || session.state == SessionState::Closing)
            && session.run(events).next.state == SessionState::Closed ==> unregistrations(
            session.run(events).actions,
        ) == 1,
        session.state == SessionState::Active ==> session.run(events).next.state
            != SessionState::Connecting,
        session.state == SessionState::Closing ==> session.run(events).next.state
            != SessionState::Connecting && session.run(events).next.state != SessionState::Active,
    decreases events.len(),
{
    if events.len() == 0 {
    } else {
        let before = session.run(events.drop_last());
        let last = before.next.step(events.last());
        unregisters_once(session, events.drop_last());
        unregistrations_add(before.actions, last.actions);
        step_unregisters(before.next, events.last());
        if session.state == SessionState::Closed {
            closed_is_final(session, events.drop_last());
        }
    }
}

} // verus!
