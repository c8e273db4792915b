//! What the user interface keeps and how a key changes it.
//!
//! The caller draws the screen and reads the keyboard; it hands each key to
//! [`App::handle_events`] and sends off the request that comes back.

use vstd::prelude::*;
use vstd::string::StringExecFns;
use crate::client::parser::{command, request, Command, CommandView};
use crate::common::message::{Request, RequestView};

verus! {

/// A key, as far as the interface tells keys apart.
#[derive(Debug, Clone, Copy, PartialEq, Eq, Structural)]
pub enum Key {
    Char(char),
    Backspace,
    Enter,
    Other,
}

/// The state of the interface: the lines shown, the line being typed, and
/// whether the user has asked to quit.
pub struct App {
    messages: Vec<String>,
    input: String,
    quit: bool,
}

/// What an [`App`] holds.
pub struct AppView {
    pub messages: Seq<Seq<char>>,
    pub input: Seq<char>,
    pub quit: bool,
}

impl View for App {
    type V = AppView;

    closed spec fn view(&self) -> AppView {
        AppView {
            messages: Seq::new(self.messages@.len(), |i: int| self.messages@[i]@),
            input: self.input@,
            quit: self.quit,
        }
    }
}

/// The state after a key, and the request that the key sends off, if any.
///
/// A released key does nothing. A character joins the line, backspace takes
/// the last one away. Enter empties the line; if the line was a command, its
/// request is sent, and `quit` is remembered.
pub open spec fn typed(app: AppView, key: Key, released: bool) -> (AppView, Option<RequestView>) {
    if released {
        (app, None)
    } else {
        match key {
            Key::Char(c) => (AppView { input: app.input.push(c), ..app }, None),
            Key::Backspace => (
                AppView {
                    input: if app.input.len() > 0 {
                        app.input.drop_last()
                    } else {
                        app.input
                    },
                    ..app
                },
                None,
            ),
            Key::Enter => match command(app.input) {
                Some(c) => (
                    AppView {
                        input: Seq::empty(),
                        quit: app.quit || c == CommandView::Quit,
                        ..app
                    },
                    Some(request(c)),
                ),
                None => (AppView { input: Seq::empty(), ..app }, None),
            },
            Key::Other => (app, None),
        }
    }
}

/// The line under the history: what is being typed.
pub open spec fn prompt(input: Seq<char>) -> Seq<char> {
    "Message: "@ + input
}

impl App {
    pub fn new() -> (app: Self)
        ensures
            app@ == (AppView { messages: Seq::empty(), input: Seq::empty(), quit: false }),
    {
        let app = App { messages: Vec::new(), input: String::new(), quit: false };
        assert(app@.messages =~= Seq::empty());
        app
    }

    /// Takes a key; returns the request to send, if the key completes one.
    pub fn handle_events(&mut self, key: Key, released: bool) -> (r: Option<Request>)
        ensures
            final(self)@ == typed(old(self)@, key, released).0,
            match typed(old(self)@, key, released).1 {
                Some(request) => r.is_some() && r.unwrap()@ == request,
                None => r.is_none(),
            },
    {
        if released {
            return None;
        }
        match key {
            Key::Char(ch) => {
                self.input.push(ch);
                None
            },
            Key::Backspace => {
                self.input.pop();
                None
            },
            Key::Enter => {
                let input = self.input.clone();
                self.input = String::new();

                match Command::from(input.as_str()) {
                    Some(command) => {
                        if let Command::Quit = command {
                            self.quit = true;
                        }
                        Some(command.to_request())
                    },
                    None => None,
                }
            },
            Key::Other => None,
        }
    }

    /// Adds a line to the history.
    pub fn show(&mut self, line: String)
        ensures
            final(self)@ == (AppView { messages: old(self)@.messages.push(line@), ..old(self)@ }),
    {
        self.messages.push(line);
        assert(self@.messages =~= old(self)@.messages.push(line@));
    }

    /// The line under the history.
    pub fn input_view(&self) -> (text: String)
        ensures
            text@ == prompt(self@.input),
    {
        let mut text = "Message: ".to_owned();
        text.append(self.input.as_str());
        text
    }

    /// Whether the user has asked to quit.
    pub fn quit(&self) -> (quit: bool)
        ensures
            quit == self@.quit,
    {
        self.quit
    }

    /// The lines of the history, oldest first.
    pub fn messages(&self) -> (lines: &Vec<String>)
        ensures
            lines@.len() == self@.messages.len(),
            forall|i: int| 0 <= i < lines@.len() ==> lines@[i]@ == self@.messages[i],
    {
        &self.messages
    }
}

} // verus!
