use chat_relay::client::interface::{App, Key};
use chat_relay::common::message::{Protocol, Request};

fn type_line(app: &mut App, line: &str) {
    for c in line.chars() {
        assert_eq!(app.handle_events(Key::Char(c), false), None);
    }
}

#[test]
fn a_new_app_is_empty() {
    let app = App::new();
    assert_eq!(app.input_view(), "Message: ");
    assert!(app.messages().is_empty());
    assert!(!app.quit());
}

#[test]
fn characters_join_the_line() {
    let mut app = App::new();
    type_line(&mut app, "bob:hi");
    assert_eq!(app.input_view(), "Message: bob:hi");
}

#[test]
fn backspace_takes_the_last_character() {
    let mut app = App::new();
    type_line(&mut app, "héé");
    assert_eq!(app.handle_events(Key::Backspace, false), None);
    assert_eq!(app.input_view(), "Message: hé");
}

#[test]
fn backspace_on_an_empty_line_does_nothing() {
    let mut app = App::new();
    assert_eq!(app.handle_events(Key::Backspace, false), None);
    assert_eq!(app.input_view(), "Message: ");
}

#[test]
fn a_released_key_does_nothing() {
    let mut app = App::new();
    type_line(&mut app, "quit");
    assert_eq!(app.handle_events(Key::Char('x'), true), None);
    assert_eq!(app.handle_events(Key::Backspace, true), None);
    assert_eq!(app.handle_events(Key::Enter, true), None);
    assert_eq!(app.input_view(), "Message: quit");
    assert!(!app.quit());
}

#[test]
fn another_key_does_nothing() {
    let mut app = App::new();
    type_line(&mut app, "bob:hi");
    assert_eq!(app.handle_events(Key::Other, false), None);
    assert_eq!(app.input_view(), "Message: bob:hi");
}

#[test]
fn enter_sends_the_command_and_empties_the_line() {
    let mut app = App::new();
    type_line(&mut app, "udp bob:hi");
    assert_eq!(
        app.handle_events(Key::Enter, false),
        Some(Request::Send { receiver: "bob".to_owned(), message: "hi".to_owned(), protocol: Protocol::Udp })
    );
    assert_eq!(app.input_view(), "Message: ");
    assert!(!app.quit());
}

#[test]
fn enter_on_no_command_empties_the_line() {
    let mut app = App::new();
    type_line(&mut app, "hello");
    assert_eq!(app.handle_events(Key::Enter, false), None);
    assert_eq!(app.input_view(), "Message: ");
}

#[test]
fn quit_signs_out_and_is_remembered() {
    let mut app = App::new();
    type_line(&mut app, "quit");
    assert_eq!(app.handle_events(Key::Enter, false), Some(Request::SignOut));
    assert!(app.quit());
    type_line(&mut app, "all:x");
    assert_eq!(
        app.handle_events(Key::Enter, false),
        Some(Request::SendAll { message: "x".to_owned(), protocol: Protocol::Tcp })
    );
    assert!(app.quit());
}

#[test]
fn shown_lines_are_kept_in_order() {
    let mut app = App::new();
    app.show("[alice]: hi".to_owned());
    app.show("(all) [bob]: hey".to_owned());
    assert_eq!(app.messages(), &vec!["[alice]: hi".to_owned(), "(all) [bob]: hey".to_owned()]);
    assert_eq!(app.input_view(), "Message: ");
}
