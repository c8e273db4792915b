//! What a line typed by the user means.
//!
//! `quit` ends the session. `receiver:text` sends `text` to `receiver` over
//! the stream, `udp receiver:text` over the datagram socket; the receiver
//! `all` stands for everybody.

use vstd::prelude::*;
use crate::common::message::{Protocol, Request, RequestView};
use crate::text::{begins_with, chars_of, equal, find, position, string_of, strip_all, without};

verus! {

/// The receiver name that stands for every connected peer.
pub const BROADCAST_NAME: &'static str = "all";

/// The word before a receiver that asks for the datagram transport.
pub const UDP_MODIFIER: &'static str = "udp";

pub const SENDER_DELIMITER: char = ':';

pub const QUIT_COMMAND: &'static str = "quit";

/// A line of input, understood.
#[derive(Debug, PartialEq)]
pub enum Command {
    Send { message: String, receiver: String, protocol: Protocol },
    Quit,
}

/// What a [`Command`] holds.
pub enum CommandView {
    Send { message: Seq<char>, receiver: Seq<char>, protocol: Protocol },
    Quit,
}

impl View for Command {
    type V = CommandView;

    open spec fn view(&self) -> CommandView {
        match self {
            Command::Send { message, receiver, protocol } => CommandView::Send {
                message: message@,
                receiver: receiver@,
                protocol: *protocol,
            },
            Command::Quit => CommandView::Quit,
        }
    }
}

impl Clone for Command {
    fn clone(&self) -> (copy: Self)
        ensures
            copy@ == self@,
    {
        match self {
            Command::Send { message, receiver, protocol } => Command::Send {
                message: message.clone(),
                receiver: receiver.clone(),
                protocol: *protocol,
            },
            Command::Quit => Command::Quit,
        }
    }
}

/// The two sides of the first delimiter in `input`, if there is one.
pub open spec fn halves(input: Seq<char>) -> Option<(Seq<char>, Seq<char>)> {
    let mid = position(input, SENDER_DELIMITER);
    if mid < input.len() {
        Some((input.take(mid), input.skip(mid + 1)))
    } else {
        None
    }
}

/// The receiver that the left side of a line names after the datagram
/// modifier: the modifier is taken out wherever it stands, and one blank
/// must then come first, which is dropped. Without that blank the line names
/// no receiver.
pub open spec fn datagram_receiver(left: Seq<char>) -> Option<Seq<char>> {
    let rest = without(left, UDP_MODIFIER@);
    if rest.len() > 0 && rest[0] == ' ' {
        Some(rest.drop_first())
    } else {
        None
    }
}

/// The command that a line stands for, if it stands for one.
pub open spec fn command(input: Seq<char>) -> Option<CommandView> {
    if input == QUIT_COMMAND@ {
        Some(CommandView::Quit)
    } else {
        match halves(input) {
            None => None,
            Some((left, message)) => {
                if UDP_MODIFIER@.is_prefix_of(left) {
                    match datagram_receiver(left) {
                        Some(receiver) => Some(
                            CommandView::Send { message, receiver, protocol: Protocol::Udp },
                        ),
                        None => None,
                    }
                } else {
                    Some(CommandView::Send { message, receiver: left, protocol: Protocol::Tcp })
                }
            },
        }
    }
}

/// `message` without its line feeds.
pub open spec fn cleaned(message: Seq<char>) -> Seq<char>
    decreases message.len(),
{
    if message.len() == 0 {
        message
    } else if message.last() == '\n' {
        cleaned(message.drop_last())
    } else {
        cleaned(message.drop_last()).push(message.last())
    }
}

/// A cleaned message holds no line feed, and is no longer than the message.
pub proof fn lemma_cleaned_has_no_line_feed(message: Seq<char>)
    ensures
        !cleaned(message).contains('\n'),
        cleaned(message).len() <= message.len(),
    decreases message.len(),
{
    if message.len() > 0 {
        lemma_cleaned_has_no_line_feed(message.drop_last());
        let shorter = cleaned(message.drop_last());
        if message.last() != '\n' {
            assert forall|i: int| 0 <= i < shorter.push(message.last()).len() implies shorter.push(
                message.last(),
            )[i] != '\n' by {
                if i < shorter.len() {
                    assert(shorter.contains(shorter[i]));
                }
            }
        }
    }
}

/// The request that carries a command to the server.
pub open spec fn request(command: CommandView) -> RequestView {
    match command {
        CommandView::Quit => RequestView::SignOut,
        CommandView::Send { message, receiver, protocol } => {
            if receiver == BROADCAST_NAME@ {
                RequestView::SendAll { message: cleaned(message), protocol }
            } else {
                RequestView::Send { receiver, message: cleaned(message), protocol }
            }
        },
    }
}

/// Splits `input` at its first delimiter, which belongs to neither side.
pub fn partition(input: &str) -> (r: Option<(String, String)>)
    ensures
        match halves(input@) {
            Some((left, right)) => r.is_some() && r.unwrap().0@ == left && r.unwrap().1@ == right,
            None => r.is_none(),
        },
{
    let chars = chars_of(input);
    let mid = find(&chars, SENDER_DELIMITER);
    if mid == chars.len() {
        return None;
    }
    Some((string_of(&chars, 0, mid), string_of(&chars, mid + 1, chars.len())))
}

/// Takes the line feeds out of a message.
pub fn cleanup(message: String) -> (r: String)
    ensures
        r@ == cleaned(message@),
{
    let chars = chars_of(message.as_str());
    let mut r = String::new();
    let mut i: usize = 0;
    while i < chars.len()
        invariant
            i <= chars.len(),
            chars@ == message@,
            r@ == cleaned(chars@.take(i as int)),
        decreases chars.len() - i,
    {
        proof {
            let next = chars@.take(i + 1);
            assert(next.drop_last() =~= chars@.take(i as int));
            assert(next.last() == chars@[i as int]);
        }
        if chars[i] != '\n' {
            r.push(chars[i]);
        }
        i += 1;
    }
    assert(chars@.take(i as int) =~= chars@);
    r
}

impl Command {
    pub fn from(input: &str) -> (r: Option<Self>)
        ensures
            match command(input@) {
                Some(c) => r.is_some() && r.unwrap()@ == c,
                None => r.is_none(),
            },
    {
        if equal(input, QUIT_COMMAND) {
            return Some(Self::Quit);
        }
        let (receiver, message) = match partition(input) {
            Some(halves) => halves,
            None => { return None; },
        };

        let left = chars_of(receiver.as_str());
        let modifier = chars_of(UDP_MODIFIER);
        proof {
            assert(left@.skip(0) =~= left@);
        }
        if begins_with(&left, 0, &modifier) {
            let rest = strip_all(&left, &modifier);
            if rest.len() == 0 || rest[0] != ' ' {
                return None;
            }
            let receiver = string_of(&rest, 1, rest.len());

            Some(Self::Send { receiver, message, protocol: Protocol::Udp })
        } else {
            Some(Self::Send { receiver, message, protocol: Protocol::Tcp })
        }
    }

    pub fn to_request(self) -> (r: Request)
        ensures
            r@ == request(self@),
    {
        match self {
            Self::Quit => Request::SignOut,
            Self::Send { message, receiver, protocol } => {
                let message = cleanup(message);

                if equal(receiver.as_str(), BROADCAST_NAME) {
                    Request::SendAll { message, protocol }
                } else {
                    Request::Send { receiver, message, protocol }
                }
            },
        }
    }
}

} // verus!
