//! One client's session on the server: the handshake, the active exchange
//! and the teardown, as decisions on events.
//!
//! The caller owns the sockets and waits on them. It hands each thing that
//! happened to [`Session::step`] and carries out the action that comes
//! back; the calls that touch the registry are made while it holds the
//! registry's lock, and none of them waits on a socket.

use vstd::prelude::*;
use vstd::string::StringExecFns;
use crate::client::parser::BROADCAST_NAME;
use crate::common::message::{
    Error,
    Message,
    MessageView,
    Protocol,
    Request,
    RequestView,
    Response,
    ResponseView,
    SocketAddress,
};
use crate::server::channel::{self, closed};
use crate::server::state::{Peer, Registry, State};

verus! {

/// The name under which the server itself speaks.
pub const SERVER_NAME: &'static str = "server";

/// Where a session stands.
#[derive(Debug, Clone, Copy, PartialEq, Eq, Structural)]
pub enum Phase {
    /// Waiting for the sign-in; not registered.
    Handshaking,
    /// Registered; serving its three sources.
    Active,
    /// Signed out or torn; still registered, teardown due.
    Closing,
    /// Gone from the registry.
    Closed,
}

/// Something that happened to a session.
#[derive(Debug, PartialEq)]
pub enum Event {
    /// The stream gave a frame: the request it holds, or `None` when it
    /// cannot be decoded or the stream is torn.
    Stream(Option<Request>),
    /// The datagram socket gave a request.
    Datagram(Request),
    /// The delivery queue gave a response.
    Delivery(Response),
}

/// What an [`Event`] holds.
pub enum EventView {
    Stream(Option<RequestView>),
    Datagram(RequestView),
    Delivery(ResponseView),
}

impl View for Event {
    type V = EventView;

    open spec fn view(&self) -> EventView {
        match self {
            Event::Stream(Some(request)) => EventView::Stream(Some(request@)),
            Event::Stream(None) => EventView::Stream(None),
            Event::Datagram(request) => EventView::Datagram(request@),
            Event::Delivery(response) => EventView::Delivery(response@),
        }
    }
}

/// What the caller is to do next.
#[derive(Debug, PartialEq)]
pub enum Action {
    /// The sign-in of `name` is accepted: send `reply` over the stream,
    /// connect the datagram socket to `udp`, then call
    /// [`Session::register`].
    Accept { name: String, udp: SocketAddress, reply: Response },
    /// The first frame is no sign-in: send `reply` over the stream and drop
    /// the connection.
    Refuse { reply: Response },
    /// Send `response` to the client over `protocol`; a failure is ignored.
    Forward { response: Response, protocol: Protocol },
    /// Hand `message` to the registry with [`dispatch`].
    Dispatch { message: Message },
    /// The session is over: call [`Session::close`].
    Leave,
    /// Nothing.
    Nothing,
}

/// What an [`Action`] holds.
pub enum ActionView {
    Accept { name: Seq<char>, udp: SocketAddress, reply: ResponseView },
    Refuse { reply: ResponseView },
    Forward { response: ResponseView, protocol: Protocol },
    Dispatch { message: MessageView },
    Leave,
    Nothing,
}

impl View for Action {
    type V = ActionView;

    open spec fn view(&self) -> ActionView {
        match self {
            Action::Accept { name, udp, reply } => ActionView::Accept {
                name: name@,
                udp: *udp,
                reply: reply@,
            },
            Action::Refuse { reply } => ActionView::Refuse { reply: reply@ },
            Action::Forward { response, protocol } => ActionView::Forward {
                response: response@,
                protocol: *protocol,
            },
            Action::Dispatch { message } => ActionView::Dispatch { message: message@ },
            Action::Leave => ActionView::Leave,
            Action::Nothing => ActionView::Nothing,
        }
    }
}

/// The transport for a response taken from the delivery queue: the
/// datagram socket if the message inside asks for it, else the stream.
pub open spec fn transport(response: ResponseView) -> Protocol {
    match response.protocol() {
        Some(Protocol::Udp) => Protocol::Udp,
        _ => Protocol::Tcp,
    }
}

/// A session as a mathematical value.
pub struct SessionView {
    /// Where the session stands.
    pub phase: Phase,
    /// Whether a sign-in was accepted, so that the session may register.
    pub greeted: bool,
    /// The name of the accepted sign-in; empty before that.
    pub name: Seq<char>,
    /// The address that the registry knows the session by.
    pub address: u64,
    /// The address that the session's datagram socket is bound to.
    pub local_udp: SocketAddress,
}

/// What an active session does with a request: it delivers the message that
/// the request asks for, in its own name, and leaves on a request without
/// one.
pub open spec fn serve(session: SessionView, request: RequestView) -> (SessionView, ActionView) {
    match request.to_message(session.name) {
        Some(message) => (session, ActionView::Dispatch { message }),
        None => (SessionView { phase: Phase::Closing, ..session }, ActionView::Leave),
    }
}

/// What a session that waits for the sign-in does with the first frame of
/// the stream: a sign-in is accepted and its name kept; anything else is
/// refused and closes the session.
pub open spec fn greet(session: SessionView, first: Option<RequestView>) -> (
    SessionView,
    ActionView,
) {
    match first {
        Some(RequestView::SignIn { name, udp }) => (
            SessionView { greeted: true, name, ..session },
            ActionView::Accept { name, udp, reply: ResponseView::Welcome(session.local_udp) },
        ),
        _ => (
            SessionView { phase: Phase::Closed, ..session },
            ActionView::Refuse { reply: ResponseView::Error(Error::InvalidName) },
        ),
    }
}

/// The whole table: the session and the action that follow from a session
/// and an event.
pub open spec fn decide(session: SessionView, event: EventView) -> (SessionView, ActionView) {
    match session.phase {
        Phase::Handshaking => match event {
            EventView::Stream(first) => if session.greeted {
                (session, ActionView::Nothing)
            } else {
                greet(session, first)
            },
            _ => (session, ActionView::Nothing),
        },
        Phase::Active => match event {
            EventView::Delivery(response) => (
                session,
                ActionView::Forward { response, protocol: transport(response) },
            ),
            EventView::Datagram(request) => serve(session, request),
            EventView::Stream(Some(request)) => serve(session, request),
            EventView::Stream(None) => (
                SessionView { phase: Phase::Closing, ..session },
                ActionView::Leave,
            ),
        },
        Phase::Closing => (session, ActionView::Nothing),
        Phase::Closed => (session, ActionView::Nothing),
    }
}

/// Whether a session in this phase stands in the registry.
pub open spec fn registered(phase: Phase) -> bool {
    phase == Phase::Active || phase == Phase::Closing
}

/// No event registers a session or takes it out of the registry: a session
/// becomes registered by [`Session::register`] alone and stays so, whatever
/// happens to it, until [`Session::close`] has torn it down. An active
/// session that ends goes to `Closing`, never straight to `Closed`; a
/// closing or closed session stays as it is; and no event changes the
/// address of a session, or the name of a registered one.
pub proof fn lemma_events_keep_registration(session: SessionView, event: EventView)
    ensures
        registered(decide(session, event).0.phase) == registered(session.phase),
        decide(session, event).0.address == session.address,
        decide(session, event).0.local_udp == session.local_udp,
        registered(session.phase) ==> decide(session, event).0.name == session.name,
        session.phase == Phase::Closing || session.phase == Phase::Closed ==> decide(
            session,
            event,
        ) == (session, ActionView::Nothing),
        decide(session, event).1 == ActionView::Leave ==> session.phase == Phase::Active && decide(
            session,
            event,
        ).0.phase == Phase::Closing,
{
}

/// What the server says to all: `text`, in its own name, over the stream.
pub open spec fn announcement(text: Seq<char>) -> ResponseView {
    ResponseView::Message(
        MessageView {
            message: text,
            sender: SERVER_NAME@,
            receiver: BROADCAST_NAME@,
            protocol: Protocol::Tcp,
        },
    )
}

/// The words that tell of a peer coming.
pub open spec fn joined(name: Seq<char>) -> Seq<char> {
    name + " has joined the chat"@
}

/// The words that tell of a peer going.
pub open spec fn left(name: Seq<char>) -> Seq<char> {
    name + " has left the chat"@
}

/// Hands `text`, in the server's name, to the queue of every registered
/// peer.
pub fn send_server_announcement(state: &mut State, text: &str)
    ensures
        old(state)@.offered(announcement(text@), final(state)@),
        old(state)@.consistent() ==> final(state)@.consistent(),
{
    let message = Message::new(text, SERVER_NAME, BROADCAST_NAME, Protocol::Tcp);

    let _ignore = state.broadcast(message);
}

/// What the registry holds after `message` was handed to it: a broadcast
/// was handed to every queue; a direct message was handed to the queue of
/// its receiver, which took it or did not, or to none if nobody is
/// registered under the receiver's name.
pub open spec fn dispatched(before: Registry, message: MessageView, after: Registry) -> bool {
    if message.is_broadcast() {
        before.offered(ResponseView::Message(message), after)
    } else {
        match before.route(message.receiver) {
            Some(address) => {
                ||| after == before.handed(address, ResponseView::Message(message), true)
                ||| after == before.handed(address, ResponseView::Message(message), false)
            },
            None => after == before,
        }
    }
}

/// Hands a message to the registry: to all peers if it is a broadcast, else
/// to its receiver. That a receiver is unknown or its queue closed is not
/// reported: the sender is told nothing.
pub fn dispatch(state: &mut State, message: Message)
    ensures
        dispatched(old(state)@, message@, final(state)@),
        old(state)@.consistent() ==> final(state)@.consistent(),
{
    let _ignore = match message.is_broadcast() {
        true => state.broadcast(message),
        false => state.send(message),
    };
}

/// Gives each accepted connection the number that the registry knows it by.
pub struct Acceptor {
    accepted: u64,
}

impl Acceptor {
    /// How many connections were accepted so far.
    pub closed spec fn accepted_of(&self) -> nat {
        self.accepted as nat
    }

    pub fn new() -> (acceptor: Acceptor)
        ensures
            acceptor.accepted_of() == 0,
    {
        Acceptor { accepted: 0 }
    }

    /// A session for the next connection, whose datagram socket is bound to
    /// `local_udp`. Its address is the number of connections accepted
    /// before it, so no two sessions of one acceptor share an address. When
    /// the numbers have run out there is no session.
    pub fn accept(&mut self, local_udp: SocketAddress) -> (session: Option<Session>)
        ensures
            old(self).accepted_of() < u64::MAX ==> {
                &&& session.is_some()
                &&& session.unwrap()@ == Session::fresh(old(self).accepted_of() as u64, local_udp)
                &&& final(self).accepted_of() == old(self).accepted_of() + 1
            },
            old(self).accepted_of() >= u64::MAX ==> {
                &&& session.is_none()
                &&& final(self).accepted_of() == old(self).accepted_of()
            },
    {
        if self.accepted == u64::MAX {
            return None;
        }
        let address = self.accepted;
        self.accepted = self.accepted + 1;
        Some(Session::new(address, local_udp))
    }
}

/// One client's session.
pub struct Session {
    phase: Phase,
    greeted: bool,
    address: u64,
    local_udp: SocketAddress,
    name: String,
}

impl View for Session {
    type V = SessionView;

    closed spec fn view(&self) -> SessionView {
        SessionView {
            phase: self.phase,
            greeted: self.greeted,
            name: self.name@,
            address: self.address,
            local_udp: self.local_udp,
        }
    }
}

impl Session {
    /// A session that waits for its sign-in.
    pub open spec fn fresh(address: u64, local_udp: SocketAddress) -> SessionView {
        SessionView {
            phase: Phase::Handshaking,
            greeted: false,
            name: Seq::empty(),
            address,
            local_udp,
        }
    }

    /// A session for the connection that the registry will know as
    /// `address`, whose datagram socket is bound to `local_udp`.
    pub fn new(address: u64, local_udp: SocketAddress) -> (session: Session)
        ensures
            session@ == Session::fresh(address, local_udp),
    {
        Session {
            phase: Phase::Handshaking,
            greeted: false,
            address,
            local_udp,
            name: String::new(),
        }
    }

    /// Where the session stands.
    pub fn phase(&self) -> (phase: Phase)
        ensures
            phase == self@.phase,
    {
        self.phase
    }

    /// The name of the accepted sign-in; empty before that.
    pub fn name(&self) -> (name: &str)
        ensures
            name@ == self@.name,
    {
        self.name.as_str()
    }

    /// Takes an event and says what to do.
    pub fn step(&mut self, event: Event) -> (action: Action)
        ensures
            (final(self)@, action@) == decide(old(self)@, event@),
    {
        match self.phase {
            Phase::Handshaking => match event {
                Event::Stream(first) => if self.greeted {
                    Action::Nothing
                } else {
                    self.greet(first)
                },
                _ => Action::Nothing,
            },
            Phase::Active => match event {
                Event::Delivery(response) => {
                    let protocol = match response.get_protocol() {
                        Some(Protocol::Udp) => Protocol::Udp,
                        _ => Protocol::Tcp,
                    };
                    Action::Forward { response, protocol }
                },
                Event::Datagram(request) => self.serve(request),
                Event::Stream(Some(request)) => self.serve(request),
                Event::Stream(None) => {
                    self.phase = Phase::Closing;
                    Action::Leave
                },
            },
            Phase::Closing => Action::Nothing,
            Phase::Closed => Action::Nothing,
        }
    }

    fn greet(&mut self, first: Option<Request>) -> (action: Action)
        ensures
            (final(self)@, action@) == greet(
                old(self)@,
                match first {
                    Some(request) => Some(request@),
                    None => None,
                },
            ),
    {
        match first {
            Some(Request::SignIn { name, udp }) => {
                self.greeted = true;
                self.name = name.clone();
                Action::Accept { name, udp, reply: Response::Welcome(self.local_udp) }
            },
            _ => {
                self.phase = Phase::Closed;
                Action::Refuse { reply: Response::Error(Error::InvalidName) }
            },
        }
    }

    fn serve(&mut self, request: Request) -> (action: Action)
        ensures
            (final(self)@, action@) == serve(old(self)@, request@),
    {
        match request.to_message(self.name.as_str()) {
            Some(message) => Action::Dispatch { message },
            None => {
                self.phase = Phase::Closing;
                Action::Leave
            },
        }
    }

    /// Whether the session may register: it waits for the end of its
    /// handshake and its sign-in was accepted.
    pub open spec fn may_register(session: SessionView) -> bool {
        session.phase == Phase::Handshaking && session.greeted
    }

    /// Completes the handshake of a session whose sign-in was accepted:
    /// registers it under the name of the sign-in, tells every peer that it
    /// joined, and makes it active. Any other session is left as it is, and
    /// so is the registry.
    pub fn register(&mut self, state: &mut State) -> (peer: Option<Peer>)
        ensures
            old(state)@.consistent() ==> final(state)@.consistent(),
            Session::may_register(old(self)@) ==> {
                &&& peer.is_some()
                &&& peer.unwrap().name@ == old(self)@.name
                &&& !closed(peer.unwrap().internal_rx)
                &&& final(self)@ == (SessionView { phase: Phase::Active, ..old(self)@ })
                &&& old(state)@.added(old(self)@.name, old(self)@.address).offered(
                    announcement(joined(old(self)@.name)),
                    final(state)@,
                )
            },
            !Session::may_register(old(self)@) ==> {
                &&& peer.is_none()
                &&& final(self)@ == old(self)@
                &&& final(state)@ == old(state)@
            },
    {
        if self.phase != Phase::Handshaking || !self.greeted {
            return None;
        }
        let user = state.add(self.address, self.name.as_str());

        let mut text = self.name.clone();
        text.append(" has joined the chat");
        send_server_announcement(state, text.as_str());

        self.phase = Phase::Active;
        Some(user)
    }

    /// Ends the session. If it is registered, every peer is told that it
    /// left, and it is taken out of the registry unless another has replaced
    /// it there. In any case the receiving end of `user`'s queue is closed
    /// and the session is closed.
    pub fn close(&mut self, state: &mut State, user: &mut Peer)
        ensures
            final(self)@ == (SessionView { phase: Phase::Closed, ..old(self)@ }),
            closed(final(user).internal_rx),
            final(user).name == old(user).name,
            registered(old(self)@.phase) ==> old(state)@.removed(
                old(self)@.name,
                old(self)@.address,
            ).offered(announcement(left(old(self)@.name)), final(state)@),
            !registered(old(self)@.phase) ==> final(state)@ == old(state)@,
            old(state)@.consistent() ==> final(state)@.consistent(),
    {
        if self.phase == Phase::Active || self.phase == Phase::Closing {
            let mut text = self.name.clone();
            text.append(" has left the chat");
            send_server_announcement(state, text.as_str());
            state.remove(self.name.as_str(), self.address);
        }
        channel::close(&mut user.internal_rx);
        self.phase = Phase::Closed;
    }
}

} // verus!
