//! The vocabulary of the wire: requests, responses and chat messages.
//!
//! Every type has a view that replaces its strings by `Seq<char>`; the
//! contracts of the whole crate speak of these views.

use vstd::prelude::*;
use crate::client::parser::BROADCAST_NAME;
use crate::text;

verus! {

/// The transport that carries one item: the reliable stream or the
/// best-effort datagram socket.
#[derive(Debug, Clone, Copy, PartialEq, Eq, Structural)]
pub enum Protocol {
    Tcp,
    Udp,
}

/// An internet host address, as the number its bytes spell in network order.
#[derive(Debug, Clone, Copy, PartialEq, Eq, Structural)]
pub enum IpAddress {
    V4(u32),
    V6(u128),
}

/// A host address and a port: where a socket can be reached.
#[derive(Debug, Clone, Copy, PartialEq, Eq, Structural)]
pub struct SocketAddress {
    pub ip: IpAddress,
    pub port: u16,
}

/// Why the server turned a client away, or the client the server.
#[derive(Debug, Clone, Copy, PartialEq, Eq, Structural)]
pub enum Error {
    InvalidName,
    InvalidServerResponse,
}

impl Error {
    /// The reason in words.
    pub fn to_string(&self) -> (s: String)
        ensures
            s@ == self.text(),
    {
        match self {
            Error::InvalidName => "invalid name".to_owned(),
            Error::InvalidServerResponse => "invalid server response".to_owned(),
        }
    }

    pub open spec fn text(&self) -> Seq<char> {
        match self {
            Error::InvalidName => "invalid name"@,
            Error::InvalidServerResponse => "invalid server response"@,
        }
    }
}

/// One chat message on its way to a peer, or to all of them.
#[derive(Debug, PartialEq)]
pub struct Message {
    message: String,
    sender: String,
    receiver: String,
    pub protocol: Protocol,
}

/// What a [`Message`] holds.
pub struct MessageView {
    pub message: Seq<char>,
    pub sender: Seq<char>,
    pub receiver: Seq<char>,
    pub protocol: Protocol,
}

impl MessageView {
    /// A message to the reserved receiver goes to every peer.
    pub open spec fn is_broadcast(self) -> bool {
        self.receiver == BROADCAST_NAME@
    }

    /// The line that shows the message to a user.
    pub open spec fn text(self) -> Seq<char> {
        if self.is_broadcast() {
            "(all) ["@ + self.sender + "]: "@ + self.message
        } else {
            "["@ + self.sender + "]: "@ + self.message
        }
    }
}

impl View for Message {
    type V = MessageView;

    closed spec fn view(&self) -> MessageView {
        MessageView {
            message: self.message@,
            sender: self.sender@,
            receiver: self.receiver@,
            protocol: self.protocol,
        }
    }
}

impl Clone for Message {
    fn clone(&self) -> (copy: Self)
        ensures
            copy@ == self@,
    {
        Message {
            message: self.message.clone(),
            sender: self.sender.clone(),
            receiver: self.receiver.clone(),
            protocol: self.protocol,
        }
    }
}

impl Message {
    pub fn new(message: &str, sender: &str, receiver: &str, protocol: Protocol) -> (r: Self)
        ensures
            r@ == (MessageView {
                message: message@,
                sender: sender@,
                receiver: receiver@,
                protocol,
            }),
    {
        let message = message.to_owned();
        let sender = sender.to_owned();
        let receiver = receiver.to_owned();

        Message { message, sender, receiver, protocol }
    }

    pub fn is_broadcast(&self) -> (r: bool)
        ensures
            r == self@.is_broadcast(),
    {
        text::equal(self.receiver.as_str(), BROADCAST_NAME)
    }

    pub fn get_sender(&self) -> (r: &str)
        ensures
            r@ == self@.sender,
    {
        self.sender.as_str()
    }

    pub fn get_receiver(&self) -> (r: &str)
        ensures
            r@ == self@.receiver,
    {
        self.receiver.as_str()
    }

    /// The transport that the message asks for.
    pub fn get_protocol(&self) -> (p: Protocol)
        ensures
            p == self@.protocol,
    {
        self.protocol
    }

    /// The text of the message.
    pub fn get_message(&self) -> (r: &str)
        ensures
            r@ == self@.message,
    {
        self.message.as_str()
    }

    /// The line that shows the message to a user: the sender in square
    /// brackets before the text, and `(all)` before a broadcast.
    pub fn to_string(&self) -> (s: String)
        ensures
            s@ == self@.text(),
    {
        let mut s = if self.is_broadcast() {
            "(all) [".to_owned()
        } else {
            "[".to_owned()
        };
        s.append(self.sender.as_str());
        s.append("]: ");
        s.append(self.message.as_str());
        s
    }
}

/// What a client asks of the server.
#[derive(Debug, PartialEq)]
pub enum Request {
    SignIn { name: String, udp: SocketAddress },
    SignOut,
    Send { receiver: String, message: String, protocol: Protocol },
    SendAll { message: String, protocol: Protocol },
}

/// What a [`Request`] holds.
pub enum RequestView {
    SignIn { name: Seq<char>, udp: SocketAddress },
    SignOut,
    Send { receiver: Seq<char>, message: Seq<char>, protocol: Protocol },
    SendAll { message: Seq<char>, protocol: Protocol },
}

impl RequestView {
    /// The message that a request asks to deliver for `sender`: a direct one
    /// for `Send`, one to the reserved receiver for `SendAll`, none for the
    /// requests that open and end a session.
    pub open spec fn to_message(self, sender: Seq<char>) -> Option<MessageView> {
        match self {
            RequestView::Send { receiver, message, protocol } => Some(
                MessageView { message, sender, receiver, protocol },
            ),
            RequestView::SendAll { message, protocol } => Some(
                MessageView { message, sender, receiver: BROADCAST_NAME@, protocol },
            ),
            _ => None,
        }
    }
}

impl View for Request {
    type V = RequestView;

    open spec fn view(&self) -> RequestView {
        match self {
            Request::SignIn { name, udp } => RequestView::SignIn { name: name@, udp: *udp },
            Request::SignOut => RequestView::SignOut,
            Request::Send { receiver, message, protocol } => RequestView::Send {
                receiver: receiver@,
                message: message@,
                protocol: *protocol,
            },
            Request::SendAll { message, protocol } => RequestView::SendAll {
                message: message@,
                protocol: *protocol,
            },
        }
    }
}

impl Clone for Request {
    fn clone(&self) -> (copy: Self)
        ensures
            copy@ == self@,
    {
        match self {
            Request::SignIn { name, udp } => Request::SignIn { name: name.clone(), udp: *udp },
            Request::SignOut => Request::SignOut,
            Request::Send { receiver, message, protocol } => Request::Send {
                receiver: receiver.clone(),
                message: message.clone(),
                protocol: *protocol,
            },
            Request::SendAll { message, protocol } => Request::SendAll {
                message: message.clone(),
                protocol: *protocol,
            },
        }
    }
}

impl Request {
    pub fn to_message(self, sender: &str) -> (r: Option<Message>)
        ensures
            match self@.to_message(sender@) {
                Some(m) => r.is_some() && r.unwrap()@ == m,
                None => r.is_none(),
            },
    {
        match self {
            Request::Send { receiver, message, protocol } => Some(
                Message::new(message.as_str(), sender, receiver.as_str(), protocol),
            ),
            Request::SendAll { message, protocol } => Some(
                Message::new(message.as_str(), sender, BROADCAST_NAME, protocol),
            ),
            _ => None,
        }
    }
}

/// What the server tells a client.
#[derive(Debug, PartialEq)]
pub enum Response {
    Welcome(SocketAddress),
    Message(Message),
    Error(Error),
}

/// What a [`Response`] holds.
pub enum ResponseView {
    Welcome(SocketAddress),
    Message(MessageView),
    Error(Error),
}

impl ResponseView {
    /// The transport named by the message inside, if there is one.
    pub open spec fn protocol(self) -> Option<Protocol> {
        match self {
            ResponseView::Message(m) => Some(m.protocol),
            _ => None,
        }
    }

    /// The line that shows the response to a user; `address` is the text of
    /// the address that a `Welcome` carries.
    pub open spec fn text(self, address: Seq<char>) -> Seq<char> {
        match self {
            ResponseView::Welcome(_) => "[server] Logged in; server udp: "@ + address,
            ResponseView::Error(reason) => "[server] Error: "@ + reason.text(),
            ResponseView::Message(m) => m.text(),
        }
    }
}

impl View for Response {
    type V = ResponseView;

    open spec fn view(&self) -> ResponseView {
        match self {
            Response::Welcome(address) => ResponseView::Welcome(*address),
            Response::Message(m) => ResponseView::Message(m@),
            Response::Error(reason) => ResponseView::Error(*reason),
        }
    }
}

impl Clone for Response {
    fn clone(&self) -> (copy: Self)
        ensures
            copy@ == self@,
    {
        match self {
            Response::Welcome(address) => Response::Welcome(*address),
            Response::Message(m) => Response::Message(m.clone()),
            Response::Error(reason) => Response::Error(*reason),
        }
    }
}

impl Response {
    pub fn get_protocol(&self) -> (r: Option<Protocol>)
        ensures
            r == self@.protocol(),
    {
        if let Self::Message(m) = self {
            Some(m.protocol)
        } else {
            None
        }
    }

    /// The line that shows the response to a user. An address is written by
    /// the caller, who passes its text; it is read only for a `Welcome`.
    pub fn to_string(&self, address: &str) -> (s: String)
        ensures
            s@ == self@.text(address@),
    {
        match self {
            Response::Welcome(_) => {
                let mut s = "[server] Logged in; server udp: ".to_owned();
                s.append(address);
                s
            },
            Response::Error(reason) => {
                let mut s = "[server] Error: ".to_owned();
                s.append(reason.to_string().as_str());
                s
            },
            Response::Message(m) => m.to_string(),
        }
    }
}

} // verus!
