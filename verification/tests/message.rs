use chat_relay::common::message::{
    Error, IpAddress, Message, Protocol, Request, Response, SocketAddress,
};

fn address() -> SocketAddress {
    SocketAddress { ip: IpAddress::V4(0x7f00_0001), port: 4000 }
}

#[test]
fn message_new_keeps_its_parts() {
    let message = Message::new("hi", "alice", "bob", Protocol::Tcp);
    assert_eq!(message.get_message(), "hi");
    assert_eq!(message.get_sender(), "alice");
    assert_eq!(message.get_receiver(), "bob");
    assert_eq!(message.protocol, Protocol::Tcp);
    assert_eq!(message.get_protocol(), Protocol::Tcp);
    assert_eq!(Message::new("hi", "alice", "bob", Protocol::Udp).get_protocol(), Protocol::Udp);
}

#[test]
fn message_to_all_is_broadcast() {
    assert!(Message::new("hey", "alice", "all", Protocol::Udp).is_broadcast());
}

#[test]
fn message_to_a_peer_is_no_broadcast() {
    assert!(!Message::new("hey", "alice", "bob", Protocol::Tcp).is_broadcast());
    assert!(!Message::new("hey", "alice", "al", Protocol::Tcp).is_broadcast());
    assert!(!Message::new("hey", "alice", "alll", Protocol::Tcp).is_broadcast());
    assert!(!Message::new("hey", "alice", "All", Protocol::Tcp).is_broadcast());
    assert!(!Message::new("hey", "all", "", Protocol::Tcp).is_broadcast());
}

#[test]
fn message_text_of_a_direct_message() {
    let message = Message::new("hi there", "alice", "bob", Protocol::Tcp);
    assert_eq!(message.to_string(), "[alice]: hi there");
}

#[test]
fn message_text_of_a_broadcast() {
    let message = Message::new("hi there", "alice", "all", Protocol::Tcp);
    assert_eq!(message.to_string(), "(all) [alice]: hi there");
}

#[test]
fn message_clone_is_equal() {
    let message = Message::new("päivää", "älice", "bob", Protocol::Udp);
    assert_eq!(message.clone(), message);
}

#[test]
fn request_send_becomes_a_direct_message() {
    let request = Request::Send {
        receiver: "bob".to_owned(),
        message: "hi".to_owned(),
        protocol: Protocol::Udp,
    };
    assert_eq!(request.to_message("alice"), Some(Message::new("hi", "alice", "bob", Protocol::Udp)));
}

#[test]
fn request_send_all_becomes_a_broadcast() {
    let request = Request::SendAll { message: "hey".to_owned(), protocol: Protocol::Tcp };
    let message = request.to_message("alice").unwrap();
    assert_eq!(message, Message::new("hey", "alice", "all", Protocol::Tcp));
    assert!(message.is_broadcast());
}

#[test]
fn request_without_message_becomes_none() {
    assert_eq!(Request::SignOut.to_message("alice"), None);
    let sign_in = Request::SignIn { name: "alice".to_owned(), udp: address() };
    assert_eq!(sign_in.to_message("alice"), None);
}

#[test]
fn request_clone_is_equal() {
    let requests = vec![
        Request::SignIn { name: "alice".to_owned(), udp: address() },
        Request::SignOut,
        Request::Send { receiver: "b".to_owned(), message: "m".to_owned(), protocol: Protocol::Tcp },
        Request::SendAll { message: "m".to_owned(), protocol: Protocol::Udp },
    ];
    for request in requests {
        assert_eq!(request.clone(), request);
    }
}

#[test]
fn response_protocol_is_that_of_its_message() {
    let tcp = Response::Message(Message::new("hi", "a", "b", Protocol::Tcp));
    let udp = Response::Message(Message::new("hi", "a", "b", Protocol::Udp));
    assert_eq!(tcp.get_protocol(), Some(Protocol::Tcp));
    assert_eq!(udp.get_protocol(), Some(Protocol::Udp));
}

#[test]
fn response_without_message_has_no_protocol() {
    assert_eq!(Response::Welcome(address()).get_protocol(), None);
    assert_eq!(Response::Error(Error::InvalidName).get_protocol(), None);
}

#[test]
fn response_text_of_each_variant() {
    let welcome = Response::Welcome(address());
    assert_eq!(welcome.to_string("127.0.0.1:4000"), "[server] Logged in; server udp: 127.0.0.1:4000");
    let error = Response::Error(Error::InvalidName);
    assert_eq!(error.to_string(""), "[server] Error: invalid name");
    let message = Response::Message(Message::new("hi", "alice", "bob", Protocol::Tcp));
    assert_eq!(message.to_string("ignored"), "[alice]: hi");
}

#[test]
fn response_clone_is_equal() {
    let responses = vec![
        Response::Welcome(SocketAddress { ip: IpAddress::V6(1), port: 1 }),
        Response::Message(Message::new("hi", "a", "b", Protocol::Udp)),
        Response::Error(Error::InvalidServerResponse),
    ];
    for response in responses {
        assert_eq!(response.clone(), response);
    }
}

#[test]
fn error_text_of_each_variant() {
    assert_eq!(Error::InvalidName.to_string(), "invalid name");
    assert_eq!(Error::InvalidServerResponse.to_string(), "invalid server response");
}

#[test]
fn socket_addresses_compare_by_their_parts() {
    assert_eq!(address(), address());
    assert_ne!(address(), SocketAddress { ip: IpAddress::V4(0x7f00_0001), port: 4001 });
    assert_ne!(address(), SocketAddress { ip: IpAddress::V6(0x7f00_0001), port: 4000 });
}
