//! The registry: the single owner of the map from users to their sessions,
//! and the only broadcaster of events.
//!
//! The registry does no I/O. Each operation changes the map and returns what
//! has to happen next: the requests for the stores and the frames to push,
//! one per receiving session.

use crate::ids::Id;
use crate::models::{ChatMessage, ChatMessageView, StoreError};
use crate::wire::{wire_text, ChatEvent, ChatEventView};
use std::collections::HashMap;
use vstd::prelude::*;

verus! {

/// A chat message from a connected user, to be stored and relayed.
#[derive(Debug, PartialEq, Eq)]
pub struct ClientMessage {
    pub sender_id: Id,
    pub conversation_id: Id,
    pub content: String,
}

/// Mathematical model of a [`ClientMessage`].
pub struct ClientMessageView {
    pub sender_id: Id,
    pub conversation_id: Id,
    pub content: Seq<char>,
}

impl View for ClientMessage {
    type V = ClientMessageView;

    open spec fn view(&self) -> ClientMessageView {
        ClientMessageView {
            sender_id: self.sender_id,
            conversation_id: self.conversation_id,
            content: self.content@,
        }
    }
}

/// A session asks to be registered for `user_id`; `addr` is the handle
/// through which frames are pushed to it.
#[derive(Debug, PartialEq, Eq)]
pub struct Connect<H> {
    pub user_id: Id,
    pub addr: H,
}

/// The session of `user_id` has ended.
#[derive(Clone, Copy, Debug, PartialEq, Eq, Structural)]
pub struct Disconnect {
    pub user_id: Id,
}

/// A user started or stopped typing in a conversation.
#[derive(Clone, Copy, Debug, PartialEq, Eq, Structural)]
pub struct Typing {
    pub sender_id: Id,
    pub conversation_id: Id,
    pub is_typing: bool,
}

/// A text frame on its way to a session.
#[derive(Debug, PartialEq, Eq)]
pub struct WsMessage(pub String);

impl View for WsMessage {
    type V = Seq<char>;

    open spec fn view(&self) -> Seq<char> {
        self.0@
    }
}

/// One frame for one session.
#[derive(Debug, PartialEq, Eq)]
pub struct Delivery<'a, H> {
    /// The user whose session receives the frame.
    pub user_id: Id,
    /// The handle registered for that user.
    pub addr: &'a H,
    /// The frame to push through the handle.
    pub message: WsMessage,
}

/// The users that a list of deliveries goes to, in order.
pub open spec fn recipients<H>(deliveries: Seq<Delivery<'_, H>>) -> Seq<Id> {
    deliveries.map_values(|delivery: Delivery<'_, H>| delivery.user_id)
}

/// The users that receive a broadcast: everyone who is registered, but for
/// the one to skip.
pub open spec fn audience<H>(sessions: Map<Id, H>, skip: Option<Id>) -> Set<Id> {
    match skip {
        Some(user_id) => sessions.dom().remove(user_id),
        None => sessions.dom(),
    }
}

/// `deliveries` is a broadcast of `text` over `sessions` that leaves out
/// `skip`: every user of the audience gets exactly one delivery, nobody else
/// gets one, and each delivery carries `text` and the handle registered for
/// its user.
pub open spec fn fans_out<H>(
    deliveries: Seq<Delivery<'_, H>>,
    sessions: Map<Id, H>,
    text: Seq<char>,
    skip: Option<Id>,
) -> bool {
    &&& recipients(deliveries).no_duplicates()
    &&& recipients(deliveries).to_set() == audience(sessions, skip)
    &&& forall|i: int|
        0 <= i < deliveries.len() ==> {
            &&& sessions.contains_key((#[trigger] deliveries[i]).user_id)
            &&& *deliveries[i].addr == sessions[deliveries[i].user_id]
            &&& deliveries[i].message@ == text
        }
}

/// A request to the presence store to record a user as online or offline.
/// Nobody waits for its outcome.
#[derive(Clone, Copy, Debug, PartialEq, Eq, Structural)]
pub struct PresenceUpdate {
    pub user_id: Id,
    pub online: bool,
}

/// A request to the message store to write one chat message.
#[derive(Debug, PartialEq, Eq)]
pub struct PersistMessage {
    pub conversation_id: Id,
    pub sender_id: Id,
    pub content: String,
}

/// What follows a change of the registry: the request for the presence store,
/// the frames that announce the change, and the handle that has left the
/// registry, if one has.
#[derive(Debug, PartialEq, Eq)]
pub struct Announcement<'a, H> {
    pub presence: PresenceUpdate,
    pub deliveries: Vec<Delivery<'a, H>>,
    /// The handle that was registered for the user until now. Nothing is
    /// sent to it; what becomes of it is up to the caller.
    pub displaced: Option<H>,
}

/// The handle registered for `user_id`, if there is one.
pub open spec fn handle_of<H>(sessions: Map<Id, H>, user_id: Id) -> Option<H> {
    if sessions.contains_key(user_id) {
        Some(sessions[user_id])
    } else {
        None
    }
}

/// The one user who does not receive an event, if there is one: the sender of
/// a typing notice, and the user who has just come online.
pub open spec fn left_out(event: ChatEventView) -> Option<Id> {
    match event {
        ChatEventView::NewMessage(_) => None,
        ChatEventView::Typing { sender_id, .. } => Some(sender_id),
        ChatEventView::PresenceOnline { user_id } => Some(user_id),
        ChatEventView::PresenceOffline { .. } => None,
    }
}

/// `deliveries` relays `event` over `sessions`: its frame goes once to every
/// registered session but the one the event leaves out.
pub open spec fn relays<H>(
    deliveries: Seq<Delivery<'_, H>>,
    sessions: Map<Id, H>,
    event: ChatEventView,
) -> bool {
    fans_out(deliveries, sessions, wire_text(event), left_out(event))
}

/// The registry of connected users. `H` is the handle through which frames
/// are pushed to a session; the registry keeps it and hands it out, and never
/// looks inside.
pub struct ChatServer<H> {
    sessions: HashMap<Id, H>,
}

impl<H> View for ChatServer<H> {
    type V = Map<Id, H>;

    closed spec fn view(&self) -> Map<Id, H> {
        self.sessions@
    }
}

impl<H> ChatServer<H> {
    /// A registry with nobody connected.
    pub fn new() -> (server: Self)
        ensures
            server@ == Map::<Id, H>::empty(),
    {
        ChatServer { sessions: HashMap::new() }
    }

    /// The number of registered sessions.
    pub fn len(&self) -> (count: usize)
        ensures
            count == self@.len(),
            self@.dom().finite(),
    {
        self.sessions.len()
    }

    /// Whether a session is registered for `user_id`.
    pub fn is_registered(&self, user_id: Id) -> (registered: bool)
        ensures
            registered == self@.contains_key(user_id),
    {
        self.sessions.contains_key(&user_id)
    }

    /// The handle registered for `user_id`, if there is one.
    pub fn session(&self, user_id: Id) -> (addr: Option<&H>)
        ensures
            match addr {
                Some(addr) => handle_of(self@, user_id) == Some(*addr),
                None => handle_of(self@, user_id) is None,
            },
    {
        self.sessions.get(&user_id)
    }

    /// Makes one delivery of `msg` for every registered session, except for
    /// the session of `skip_id`. The conversation plays no part: the registry
    /// keeps no record of who takes part in which conversation.
    pub fn broadcast(&self, _conv_id: Id, msg: &str, skip_id: Option<Id>) -> (deliveries: Vec<
        Delivery<'_, H>,
    >)
        ensures
            fans_out(deliveries@, self@, msg@, skip_id),
    {
        let mut deliveries: Vec<Delivery<'_, H>> = Vec::new();
        for entry in it: self.sessions.iter()
            invariant
                it.seq().no_duplicates(),
                recipients(deliveries@).no_duplicates(),
                forall|i: int|
                    0 <= i < deliveries.len() ==> {
                        &&& self.sessions@.contains_key((#[trigger] deliveries[i]).user_id)
                        &&& *deliveries[i].addr == self.sessions@[deliveries[i].user_id]
                        &&& deliveries[i].message@ == msg@
                        &&& skip_id != Some(deliveries[i].user_id)
                        &&& exists|j: int|
                            0 <= j < it.index() && *(#[trigger] it.seq()[j]).0
                                == deliveries[i].user_id
                    },
                forall|j: int|
                    0 <= j < it.index() && skip_id != Some(*(#[trigger] it.seq()[j]).0)
                        ==> recipients(deliveries@).contains(*it.seq()[j].0),
        {
            let (user_id, addr) = entry;
            let skipped = match skip_id {
                Some(id) => *user_id == id,
                None => false,
            };
            if !skipped {
                let ghost before = deliveries@;
                deliveries.push(
                    Delivery { user_id: *user_id, addr, message: WsMessage(msg.to_owned()) },
                );
                proof {
                    assert(recipients(deliveries@) =~= recipients(before).push(*user_id));
                    assert(!recipients(before).contains(*user_id)) by {
                        if recipients(before).contains(*user_id) {
                            let i = choose|i: int|
                                0 <= i < before.len() && recipients(before)[i] == *user_id;
                            let j = choose|j: int|
                                0 <= j < it.index() && *(#[trigger] it.seq()[j]).0
                                    == before[i].user_id;
                            assert(it.seq()[j] == it.seq()[it.index()]);
                        }
                    }
                    assert(recipients(deliveries@)[before.len() as int] == *user_id);
                    assert forall|j: int|
                        0 <= j < it.index() && skip_id != Some(
                            *(#[trigger] it.seq()[j]).0,
                        ) implies recipients(deliveries@).contains(*it.seq()[j].0) by {
                        let i = choose|i: int|
                            0 <= i < before.len() && recipients(before)[i] == *it.seq()[j].0;
                        assert(recipients(deliveries@)[i] == *it.seq()[j].0);
                    }
                }
            }
        }
        proof {
            assert(recipients(deliveries@).to_set() =~= audience(self@, skip_id));
        }
        deliveries
    }

    /// Encodes `event` and makes one delivery of its frame for every
    /// registered session but the one the event leaves out.
    pub fn relay(&self, event: &ChatEvent) -> (deliveries: Vec<Delivery<'_, H>>)
        ensures
            relays(deliveries@, self@, event@),
    {
        let text = event.encode();
        match event {
            ChatEvent::NewMessage(message) => self.broadcast(
                message.conversation_id,
                text.as_str(),
                None,
            ),
            ChatEvent::Typing { conversation_id, sender_id, .. } => self.broadcast(
                *conversation_id,
                text.as_str(),
                Some(*sender_id),
            ),
            ChatEvent::PresenceOnline { user_id } => self.broadcast(
                0,
                text.as_str(),
                Some(*user_id),
            ),
            ChatEvent::PresenceOffline { .. } => self.broadcast(0, text.as_str(), None),
        }
    }

    /// Registers the session behind `msg.addr` for `msg.user_id`, in place of
    /// any earlier session of that user, and announces the user as online to
    /// every other session. An earlier handle is handed back; nothing is sent
    /// to it, not even a close.
    pub fn register(&mut self, msg: Connect<H>) -> (announcement: Announcement<'_, H>)
        ensures
            final(self)@ == old(self)@.insert(msg.user_id, msg.addr),
            announcement.presence == (PresenceUpdate { user_id: msg.user_id, online: true }),
            announcement.displaced == handle_of(old(self)@, msg.user_id),
            relays(
                announcement.deliveries@,
                final(self)@,
                ChatEventView::PresenceOnline { user_id: msg.user_id },
            ),
    {
        let user_id = msg.user_id;
        let displaced = self.sessions.insert(user_id, msg.addr);
        let deliveries = self.relay(&ChatEvent::PresenceOnline { user_id });
        Announcement { presence: PresenceUpdate { user_id, online: true }, deliveries, displaced }
    }

    /// Removes the session of `msg.user_id`, if there is one, and announces
    /// the user as offline to every session that is still registered.
    pub fn unregister(&mut self, msg: Disconnect) -> (announcement: Announcement<'_, H>)
        ensures
            final(self)@ == old(self)@.remove(msg.user_id),
            announcement.presence == (PresenceUpdate { user_id: msg.user_id, online: false }),
            announcement.displaced == handle_of(old(self)@, msg.user_id),
            relays(
                announcement.deliveries@,
                final(self)@,
                ChatEventView::PresenceOffline { user_id: msg.user_id },
            ),
    {
        let user_id = msg.user_id;
        let displaced = self.sessions.remove(&user_id);
        let deliveries = self.relay(&ChatEvent::PresenceOffline { user_id });
        Announcement { presence: PresenceUpdate { user_id, online: false }, deliveries, displaced }
    }

    /// Takes in a chat message. Nothing is sent yet: the message first has to
    /// be written to the store, and this is the request to write it. What the
    /// store answers goes to [`ChatServer::message_stored`].
    pub fn route_message(&self, msg: ClientMessage) -> (request: PersistMessage)
        ensures
            request.conversation_id == msg.conversation_id,
            request.sender_id == msg.sender_id,
            request.content@ == msg.content@,
    {
        PersistMessage {
            conversation_id: msg.conversation_id,
            sender_id: msg.sender_id,
            content: msg.content,
        }
    }

    /// Relays a chat message once the store has answered: the stored message
    /// goes to every registered session, the sender's own included. Where
    /// the store failed, nothing is sent to anybody.
    pub fn message_stored(&self, outcome: Result<ChatMessage, StoreError>) -> (deliveries: Vec<
        Delivery<'_, H>,
    >)
        ensures
            match outcome {
                Ok(message) => relays(deliveries@, self@, ChatEventView::NewMessage(message@)),
                Err(_) => deliveries@.len() == 0,
            },
    {
        match outcome {
            Ok(message) => self.relay(&ChatEvent::NewMessage(message)),
            Err(_) => Vec::new(),
        }
    }

    /// Relays a typing notice to every registered session but the sender's.
    pub fn route_typing(&self, msg: Typing) -> (deliveries: Vec<Delivery<'_, H>>)
        ensures
            relays(
                deliveries@,
                self@,
                ChatEventView::Typing {
                    conversation_id: msg.conversation_id,
                    sender_id: msg.sender_id,
                    is_typing: msg.is_typing,
                },
            ),
    {
        self.relay(
            &ChatEvent::Typing {
                conversation_id: msg.conversation_id,
                sender_id: msg.sender_id,
                is_typing: msg.is_typing,
            },
        )
    }
}

/// A change to the registry, as [`ChatServer::register`] and
/// [`ChatServer::unregister`] make it.
pub enum RegistryOp<H> {
    Register { user_id: Id, addr: H },
    Unregister { user_id: Id },
}

impl<H> RegistryOp<H> {
    /// The user whose entry the operation changes.
    pub open spec fn user(self) -> Id {
        match self {
            RegistryOp::Register { user_id, .. } => user_id,
            RegistryOp::Unregister { user_id } => user_id,
        }
    }

    /// The sessions after the operation.
    pub open spec fn apply(self, sessions: Map<Id, H>) -> Map<Id, H> {
        match self {
            RegistryOp::Register { user_id, addr } => sessions.insert(user_id, addr),
            RegistryOp::Unregister { user_id } => sessions.remove(user_id),
        }
    }
}

/// The sessions of a registry that started empty and went through `ops`, one
/// after the other.
pub open spec fn replay<H>(ops: Seq<RegistryOp<H>>) -> Map<Id, H>
    decreases ops.len(),
{
    if ops.len() == 0 {
        Map::empty()
    } else {
        ops.last().apply(replay(ops.drop_last()))
    }
}

/// `ops[at]` is the latest operation on its user: none after it names the
/// same user.
pub open spec fn is_latest<H>(ops: Seq<RegistryOp<H>>, at: int) -> bool {
    &&& 0 <= at < ops.len()
    &&& forall|later: int|
        at < later < ops.len() ==> (#[trigger] ops[later]).user() != ops[at].user()
}

/// After any sequence of registrations and unregistrations, a user has an
/// entry exactly if the latest operation on that user is a registration, and
/// the entry then holds the handle of that registration: a later registration
/// replaces an earlier one, and an unregistration removes whatever was there.
pub proof fn registration_invariant<H>(ops: Seq<RegistryOp<H>>, user_id: Id)
    ensures
        replay(ops).contains_key(user_id) <==> exists|at: int|
            is_latest(ops, at) && (#[trigger] ops[at]).user() == user_id && ops[at] is Register,
        forall|at: int|
            is_latest(ops, at) && (#[trigger] ops[at]).user() == user_id && ops[at] is Register
                ==> replay(ops)[user_id] == ops[at]->addr,
    decreases ops.len(),
{
    if ops.len() > 0 {
        let earlier = ops.drop_last();
        let last = ops.len() - 1;
        registration_invariant(earlier, user_id);
        if ops.last().user() == user_id {
            assert(is_latest(ops, last));
            assert forall|at: int|
                is_latest(ops, at) && (#[trigger] ops[at]).user() == user_id implies at
                == last by {
                if at < last {
                    assert(ops[last].user() != ops[at].user());
                }
            }
        } else {
            assert forall|at: int| (#[trigger] ops[at]).user() == user_id implies (is_latest(
                ops,
                at,
            ) <==> is_latest(earlier, at)) by {
                if is_latest(ops, at) {
                    assert forall|later: int| at < later < earlier.len() implies (
                    #[trigger] earlier[later]).user() != earlier[at].user() by {
                        assert(ops[later].user() != ops[at].user());
                    }
                }
                if is_latest(earlier, at) {
                    assert forall|later: int| at < later < ops.len() implies (
                    #[trigger] ops[later]).user() != ops[at].user() by {
                        if later < last {
                            assert(earlier[later].user() != earlier[at].user());
                        }
                    }
                }
            }
        }
    }
}

/// A broadcast reaches every registered session but the one it leaves out,
/// whatever conversation the event belongs to: each such user gets the frame
/// of the event exactly once, through the handle registered for that user.
pub proof fn relay_reaches_every_session<'a, H>(
    deliveries: Seq<Delivery<'a, H>>,
    sessions: Map<Id, H>,
    event: ChatEventView,
    user_id: Id,
)
    requires
        relays(deliveries, sessions, event),
        sessions.contains_key(user_id),
        left_out(event) != Some(user_id),
    ensures
        exists|at: int|
            0 <= at < deliveries.len() && (#[trigger] deliveries[at]).user_id == user_id
                && *deliveries[at].addr == sessions[user_id] && deliveries[at].message@
                == wire_text(event),
        forall|first: int, second: int|
            0 <= first < deliveries.len() && 0 <= second < deliveries.len() && (
            #[trigger] deliveries[first]).user_id == user_id && (
            #[trigger] deliveries[second]).user_id == user_id ==> first == second,
{
    let users = recipients(deliveries);
    assert(audience(sessions, left_out(event)).contains(user_id));
    assert(users.to_set().contains(user_id));
    let at = choose|at: int| 0 <= at < users.len() && users[at] == user_id;
    assert(deliveries[at].user_id == user_id);
    assert forall|first: int, second: int|
        0 <= first < deliveries.len() && 0 <= second < deliveries.len() && (
        #[trigger] deliveries[first]).user_id == user_id && (
        #[trigger] deliveries[second]).user_id == user_id implies first == second by {
        assert(users[first] == users[second]);
    }
}

/// Who receives an event does not depend on its conversation, nor on
/// anything else in it but the user it leaves out.
pub proof fn scope_is_global<'a, H>(
    sessions: Map<Id, H>,
    first: ChatEventView,
    first_deliveries: Seq<Delivery<'a, H>>,
    second: ChatEventView,
    second_deliveries: Seq<Delivery<'a, H>>,
)
    requires
        relays(first_deliveries, sessions, first),
        relays(second_deliveries, sessions, second),
        left_out(first) == left_out(second),
    ensures
        recipients(first_deliveries).to_set() == recipients(second_deliveries).to_set(),
{
}

/// A stored chat message is echoed to its sender: where the sender is
/// registered, one of the deliveries goes to the sender's own session.
pub proof fn message_echoes_to_sender<'a, H>(
    deliveries: Seq<Delivery<'a, H>>,
    sessions: Map<Id, H>,
    message: ChatMessageView,
)
    requires
        relays(deliveries, sessions, ChatEventView::NewMessage(message)),
        sessions.contains_key(message.sender_id),
    ensures
        recipients(deliveries).contains(message.sender_id),
{
    relay_reaches_every_session(
        deliveries,
        sessions,
        ChatEventView::NewMessage(message),
        message.sender_id,
    );
    let at = choose|at: int|
        0 <= at < deliveries.len() && (#[trigger] deliveries[at]).user_id == message.sender_id;
    assert(recipients(deliveries)[at] == message.sender_id);
}

/// A typing notice never comes back to its sender.
pub proof fn typing_spares_sender<'a, H>(
    deliveries: Seq<Delivery<'a, H>>,
    sessions: Map<Id, H>,
    notice: Typing,
)
    requires
        relays(
            deliveries,
            sessions,
            ChatEventView::Typing {
                conversation_id: notice.conversation_id,
                sender_id: notice.sender_id,
                is_typing: notice.is_typing,
            },
        ),
    ensures
        !recipients(deliveries).contains(notice.sender_id),
{
    if recipients(deliveries).contains(notice.sender_id) {
        assert(recipients(deliveries).to_set().contains(notice.sender_id));
    }
}

} // verus!
