use chat_relay::client::parser::{
    cleanup, partition, Command, BROADCAST_NAME, QUIT_COMMAND, SENDER_DELIMITER, UDP_MODIFIER,
};
use chat_relay::common::message::{Protocol, Request};

fn send(receiver: &str, message: &str, protocol: Protocol) -> Command {
    Command::Send { message: message.to_owned(), receiver: receiver.to_owned(), protocol }
}

#[test]
fn the_reserved_words() {
    assert_eq!(BROADCAST_NAME, "all");
    assert_eq!(UDP_MODIFIER, "udp");
    assert_eq!(QUIT_COMMAND, "quit");
    assert_eq!(SENDER_DELIMITER, ':');
}

#[test]
fn partition_splits_at_the_first_delimiter() {
    assert_eq!(partition("bob:hi"), Some(("bob".to_owned(), "hi".to_owned())));
    assert_eq!(partition("bob:hi:there"), Some(("bob".to_owned(), "hi:there".to_owned())));
    assert_eq!(partition(":"), Some(("".to_owned(), "".to_owned())));
    assert_eq!(partition("bob:"), Some(("bob".to_owned(), "".to_owned())));
    assert_eq!(partition(":hi"), Some(("".to_owned(), "hi".to_owned())));
}

#[test]
fn partition_without_delimiter_is_none() {
    assert_eq!(partition("bob hi"), None);
    assert_eq!(partition(""), None);
}

#[test]
fn cleanup_takes_line_feeds_out() {
    assert_eq!(cleanup("a\nb\n".to_owned()), "ab");
    assert_eq!(cleanup("\n\n".to_owned()), "");
    assert_eq!(cleanup("plain".to_owned()), "plain");
    assert_eq!(cleanup("tab\tand\rreturn".to_owned()), "tab\tand\rreturn");
}

#[test]
fn command_quit() {
    assert_eq!(Command::from("quit"), Some(Command::Quit));
}

#[test]
fn command_almost_quit_is_none() {
    assert_eq!(Command::from("quit "), None);
    assert_eq!(Command::from("Quit"), None);
    assert_eq!(Command::from(""), None);
    assert_eq!(Command::from("hello"), None);
}

#[test]
fn command_quit_with_delimiter_is_a_send() {
    assert_eq!(Command::from("quit:now"), Some(send("quit", "now", Protocol::Tcp)));
}

#[test]
fn command_send_over_the_stream() {
    assert_eq!(Command::from("bob:hi"), Some(send("bob", "hi", Protocol::Tcp)));
    assert_eq!(Command::from("bob: hi: there"), Some(send("bob", " hi: there", Protocol::Tcp)));
    assert_eq!(Command::from("all:hey"), Some(send("all", "hey", Protocol::Tcp)));
    assert_eq!(Command::from(":x"), Some(send("", "x", Protocol::Tcp)));
    assert_eq!(Command::from(" udp bob:x"), Some(send(" udp bob", "x", Protocol::Tcp)));
}

#[test]
fn command_send_over_datagrams() {
    assert_eq!(Command::from("udp bob:hi"), Some(send("bob", "hi", Protocol::Udp)));
    assert_eq!(Command::from("udp all:hey"), Some(send("all", "hey", Protocol::Udp)));
    assert_eq!(Command::from("udp :x"), Some(send("", "x", Protocol::Udp)));
    assert_eq!(Command::from("udp  bob:x"), Some(send(" bob", "x", Protocol::Udp)));
}

#[test]
fn command_modifier_is_taken_out_everywhere() {
    assert_eq!(Command::from("udp budpob:hi"), Some(send("bob", "hi", Protocol::Udp)));
    assert_eq!(Command::from("udpudp bob:hi"), Some(send("bob", "hi", Protocol::Udp)));
}

#[test]
fn command_modifier_without_blank_is_none() {
    assert_eq!(Command::from("udpbob:hi"), None);
    assert_eq!(Command::from("udp:hi"), None);
    assert_eq!(Command::from("udp"), None);
}

#[test]
fn request_of_quit_is_sign_out() {
    assert_eq!(Command::Quit.to_request(), Request::SignOut);
}

#[test]
fn request_of_a_direct_send() {
    assert_eq!(
        send("bob", "hi\n", Protocol::Udp).to_request(),
        Request::Send { receiver: "bob".to_owned(), message: "hi".to_owned(), protocol: Protocol::Udp }
    );
}

#[test]
fn request_of_a_send_to_all() {
    assert_eq!(
        send("all", "h\ney", Protocol::Tcp).to_request(),
        Request::SendAll { message: "hey".to_owned(), protocol: Protocol::Tcp }
    );
}

#[test]
fn command_clone_is_equal() {
    let command = send("bob", "hi", Protocol::Tcp);
    assert_eq!(command.clone(), command);
    assert_eq!(Command::Quit.clone(), Command::Quit);
}

/// The same reading, written with the string functions of the standard
/// library.
fn read_with_std(input: &str) -> Option<Command> {
    if input == "quit" {
        return Some(Command::Quit);
    }
    let mid = input.find(':')?;
    let (receiver, message) = (input[..mid].to_owned(), input[mid + 1..].to_owned());
    if receiver.starts_with("udp") {
        let receiver = receiver.replace("udp", "").strip_prefix(" ")?.to_owned();
        Some(Command::Send { receiver, message, protocol: Protocol::Udp })
    } else {
        Some(Command::Send { receiver, message, protocol: Protocol::Tcp })
    }
}

#[test]
fn command_agrees_with_the_string_functions_of_std() {
    let alphabet = ['u', 'd', 'p', ' ', ':', 'a', 'é'];
    let mut lines = vec![String::new()];
    let mut from = 0;
    for _ in 0..6 {
        let until = lines.len();
        for index in from..until {
            for c in alphabet {
                let mut longer = lines[index].clone();
                longer.push(c);
                lines.push(longer);
            }
        }
        from = until;
    }
    assert_eq!(lines.len(), 137_257);
    for line in lines {
        assert_eq!(Command::from(&line), read_with_std(&line), "{line:?}");
    }
}

#[test]
fn cleanup_agrees_with_replace() {
    for message in ["", "\n", "a\nb", "\n\na\n", "a\r\nb", "ä\nö\n"] {
        assert_eq!(cleanup(message.to_owned()), message.replace('\n', ""));
    }
}
