use chat_relay::common::message::{Message, Protocol, Response};
use chat_relay::server::state::{delivery, Peer, SendError, State};

fn drain(peer: &mut Peer) -> Vec<Response> {
    let mut taken = Vec::new();
    while let Ok(response) = peer.internal_rx.try_recv() {
        taken.push(response);
    }
    taken
}

fn hi(receiver: &str) -> Message {
    Message::new("hi", "alice", receiver, Protocol::Tcp)
}

#[test]
fn add_returns_the_peer_with_its_name() {
    let mut state = State::new();
    let mut alice = state.add(1, "alice");
    assert_eq!(alice.name, "alice");
    assert_eq!(drain(&mut alice), Vec::new());
}

#[test]
fn send_to_a_registered_name_delivers_exactly_once() {
    let mut state = State::new();
    let mut alice = state.add(1, "alice");
    let mut bob = state.add(2, "bob");

    assert_eq!(state.send(hi("bob")), Ok(()));

    assert_eq!(drain(&mut bob), vec![Response::Message(hi("bob"))]);
    assert_eq!(drain(&mut alice), Vec::new());
}

#[test]
fn send_to_oneself_is_delivered() {
    let mut state = State::new();
    let mut alice = state.add(1, "alice");
    assert_eq!(state.send(hi("alice")), Ok(()));
    assert_eq!(drain(&mut alice), vec![Response::Message(hi("alice"))]);
}

#[test]
fn send_keeps_the_order() {
    let mut state = State::new();
    let mut bob = state.add(2, "bob");
    let first = Message::new("one", "alice", "bob", Protocol::Tcp);
    let second = Message::new("two", "carol", "bob", Protocol::Udp);
    assert_eq!(state.send(first.clone()), Ok(()));
    assert_eq!(state.send(second.clone()), Ok(()));
    assert_eq!(drain(&mut bob), vec![Response::Message(first), Response::Message(second)]);
}

#[test]
fn send_to_an_unregistered_name_is_user_not_found() {
    let mut state = State::new();
    let mut alice = state.add(1, "alice");
    assert_eq!(state.send(hi("bob")), Err(SendError::UserNotFound));
    assert_eq!(state.send(hi("")), Err(SendError::UserNotFound));
    assert_eq!(state.send(hi("Alice")), Err(SendError::UserNotFound));
    assert_eq!(drain(&mut alice), Vec::new());
}

#[test]
fn send_on_an_empty_registry_is_user_not_found() {
    assert_eq!(State::new().send(hi("bob")), Err(SendError::UserNotFound));
}

#[test]
fn send_to_a_closed_queue_is_channel_failure() {
    let mut state = State::new();
    let mut bob = state.add(2, "bob");
    bob.internal_rx.close();
    assert_eq!(state.send(hi("bob")), Err(SendError::InternalChannelFailed));
    assert_eq!(drain(&mut bob), Vec::new());
}

#[test]
fn send_to_a_dropped_peer_is_channel_failure() {
    let mut state = State::new();
    let bob = state.add(2, "bob");
    drop(bob);
    assert_eq!(state.send(hi("bob")), Err(SendError::InternalChannelFailed));
}

#[test]
fn remove_forgets_name_and_address() {
    let mut state = State::new();
    let mut alice = state.add(1, "alice");
    let mut bob = state.add(2, "bob");
    state.remove("bob", 2);

    assert_eq!(state.send(hi("bob")), Err(SendError::UserNotFound));
    assert_eq!(state.broadcast(hi("all")), Ok(()));
    assert_eq!(drain(&mut bob), Vec::new());
    assert_eq!(drain(&mut alice), vec![Response::Message(hi("all"))]);
}

#[test]
fn remove_of_what_is_absent_changes_nothing() {
    let mut state = State::new();
    state.remove("nobody", 9);
    let mut alice = state.add(1, "alice");
    state.remove("nobody", 9);
    state.remove("nobody", 9);
    assert_eq!(state.send(hi("alice")), Ok(()));
    assert_eq!(drain(&mut alice).len(), 1);
}

#[test]
fn remove_twice_is_as_once() {
    let mut state = State::new();
    let _alice = state.add(1, "alice");
    state.remove("alice", 1);
    state.remove("alice", 1);
    assert_eq!(state.send(hi("alice")), Err(SendError::UserNotFound));
}

#[test]
fn sign_in_then_sign_out_leaves_nothing() {
    let mut state = State::new();
    let mut bob = state.add(2, "bob");
    let mut alice = state.add(1, "alice");
    state.remove("alice", 1);

    assert_eq!(state.send(hi("alice")), Err(SendError::UserNotFound));
    assert_eq!(state.broadcast(hi("all")), Ok(()));
    assert_eq!(drain(&mut alice), Vec::new());
    assert_eq!(drain(&mut bob).len(), 1);

    let mut again = state.add(1, "carol");
    assert_eq!(state.send(hi("alice")), Err(SendError::UserNotFound));
    assert_eq!(state.send(hi("carol")), Ok(()));
    assert_eq!(drain(&mut again).len(), 1);
}

#[test]
fn names_and_queues_agree_after_adds_and_removes() {
    let mut state = State::new();
    let names = ["a", "b", "c", "d", "e"];
    let mut peers: Vec<Option<Peer>> = Vec::new();
    for (index, name) in names.iter().enumerate() {
        peers.push(Some(state.add(index as u64, name)));
    }
    state.remove("b", 1);
    peers[1] = None;
    state.remove("d", 3);
    peers[3] = None;
    peers[1] = Some(state.add(7, "b"));

    assert_eq!(state.broadcast(hi("all")), Ok(()));
    for (index, name) in names.iter().enumerate() {
        let registered = index != 3;
        let sent = state.send(hi(name));
        assert_eq!(sent.is_ok(), registered, "{name}");
        if let Some(peer) = peers[index].as_mut() {
            assert_eq!(drain(peer).len(), 2, "{name}");
        }
    }
}

#[test]
fn broadcast_reaches_every_peer_and_the_sender() {
    let mut state = State::new();
    let mut alice = state.add(1, "alice");
    let mut bob = state.add(2, "bob");
    let mut carol = state.add(3, "carol");

    let hey = Message::new("hey", "alice", "all", Protocol::Tcp);
    assert_eq!(state.broadcast(hey.clone()), Ok(()));

    for peer in [&mut alice, &mut bob, &mut carol] {
        assert_eq!(drain(peer), vec![Response::Message(hey.clone())]);
    }
}

#[test]
fn broadcast_passes_over_a_closed_queue() {
    let mut state = State::new();
    let mut alice = state.add(1, "alice");
    let mut bob = state.add(2, "bob");
    let mut carol = state.add(3, "carol");
    let dave = state.add(4, "dave");
    bob.internal_rx.close();
    drop(dave);

    let hey = Message::new("hey", "alice", "all", Protocol::Tcp);
    assert_eq!(state.broadcast(hey.clone()), Ok(()));

    assert_eq!(drain(&mut alice), vec![Response::Message(hey.clone())]);
    assert_eq!(drain(&mut carol), vec![Response::Message(hey.clone())]);
    assert_eq!(drain(&mut bob), Vec::new());
}

#[test]
fn broadcast_on_an_empty_registry_succeeds() {
    assert_eq!(State::new().broadcast(hi("all")), Ok(()));
}

#[test]
fn a_second_name_at_an_address_replaces_the_first() {
    let mut state = State::new();
    let mut first = state.add(1, "alice");
    let mut second = state.add(1, "bob");
    assert_eq!(state.send(hi("alice")), Err(SendError::UserNotFound));
    assert_eq!(state.send(hi("bob")), Ok(()));
    assert_eq!(state.broadcast(hi("all")), Ok(()));
    assert_eq!(drain(&mut first), Vec::new());
    assert_eq!(drain(&mut second).len(), 2);
}

#[test]
fn a_name_registered_again_moves_to_the_new_address() {
    let mut state = State::new();
    let mut first = state.add(1, "alice");
    let mut second = state.add(2, "alice");
    assert_eq!(state.send(hi("alice")), Ok(()));
    assert_eq!(drain(&mut first), Vec::new());
    assert_eq!(drain(&mut second).len(), 1);
}

#[test]
fn a_name_registered_again_takes_the_queue_from_the_old_address() {
    let mut state = State::new();
    let mut first = state.add(1, "alice");
    let mut bob = state.add(3, "bob");
    let mut second = state.add(2, "alice");

    assert_eq!(state.broadcast(hi("all")), Ok(()));

    assert_eq!(drain(&mut first), Vec::new());
    assert_eq!(drain(&mut second).len(), 1);
    assert_eq!(drain(&mut bob).len(), 1);
    assert_eq!(
        first.internal_rx.try_recv(),
        Err(tokio::sync::mpsc::error::TryRecvError::Disconnected)
    );
}

#[test]
fn a_name_registered_again_at_its_address_gets_a_new_queue() {
    let mut state = State::new();
    let mut first = state.add(1, "alice");
    let mut second = state.add(1, "alice");
    assert_eq!(state.send(hi("alice")), Ok(()));
    assert_eq!(drain(&mut first), Vec::new());
    assert_eq!(drain(&mut second).len(), 1);
}

#[test]
fn a_replaced_peer_takes_nothing_with_it() {
    let mut state = State::new();
    let _first = state.add(1, "alice");
    let mut second = state.add(2, "alice");
    state.remove("alice", 1);
    assert_eq!(state.send(hi("alice")), Ok(()));
    assert_eq!(drain(&mut second).len(), 1);

    let _bob = state.add(5, "bob");
    let mut carol = state.add(5, "carol");
    state.remove("bob", 5);
    assert_eq!(state.send(hi("carol")), Ok(()));
    assert_eq!(drain(&mut carol).len(), 1);
}

#[test]
fn remove_with_the_wrong_address_changes_nothing() {
    let mut state = State::new();
    let mut alice = state.add(1, "alice");
    let mut bob = state.add(2, "bob");
    state.remove("alice", 2);
    state.remove("bob", 1);
    state.remove("carol", 1);
    assert_eq!(state.send(hi("alice")), Ok(()));
    assert_eq!(state.send(hi("bob")), Ok(()));
    assert_eq!(drain(&mut alice).len(), 1);
    assert_eq!(drain(&mut bob).len(), 1);
}

#[test]
fn names_and_queues_agree_whatever_is_registered() {
    let mut state = State::new();
    let mut peers = vec![
        ("a", state.add(1, "a")),
        ("b", state.add(2, "b")),
        ("a", state.add(3, "a")),
        ("c", state.add(2, "c")),
        ("b", state.add(4, "b")),
    ];
    state.remove("a", 1);
    state.remove("c", 4);
    state.remove("b", 4);

    let registered = [false, false, true, true, false];
    assert_eq!(state.broadcast(hi("all")), Ok(()));
    for (index, (name, peer)) in peers.iter_mut().enumerate() {
        assert_eq!(drain(peer).len(), if registered[index] { 1 } else { 0 }, "{name} {index}");
    }
    assert_eq!(state.send(hi("a")), Ok(()));
    assert_eq!(state.send(hi("c")), Ok(()));
    assert_eq!(state.send(hi("b")), Err(SendError::UserNotFound));
    assert_eq!(drain(&mut peers[2].1).len(), 1);
    assert_eq!(drain(&mut peers[3].1).len(), 1);
}

#[test]
fn a_new_queue_is_open() {
    let mut state = State::new();
    let alice = state.add(1, "alice");
    assert!(!alice.internal_rx.is_closed());
}

#[test]
fn delivery_maps_the_outcome() {
    assert_eq!(delivery(true), Ok(()));
    assert_eq!(delivery(false), Err(SendError::InternalChannelFailed));
}

#[test]
fn send_error_text_of_each_variant() {
    assert_eq!(SendError::UserNotFound.to_string(), "user not found");
    assert_eq!(SendError::InternalChannelFailed.to_string(), "internal channel failed");
}

fn crosses_tasks<T: Send + 'static>() {}

#[test]
fn the_registry_can_be_shared_between_tasks() {
    crosses_tasks::<State>();
    crosses_tasks::<Peer>();
    crosses_tasks::<std::sync::Arc<std::sync::Mutex<State>>>();
}
