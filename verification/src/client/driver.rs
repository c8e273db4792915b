//! The client's side of a session: the sign-in, then the choice of a
//! transport for each request and the passing on of each response.
//!
//! The caller owns the sockets and the two channels to the user interface.
//! It hands each thing that happened to [`Driver::step`] and carries out the
//! output that comes back.

use vstd::prelude::*;
use crate::common::message::{
    Error,
    Protocol,
    Request,
    RequestView,
    Response,
    ResponseView,
    SocketAddress,
};

verus! {

/// Where the driver stands.
#[derive(Debug, Clone, Copy, PartialEq, Eq, Structural)]
pub enum Stage {
    /// The sign-in is sent; the server's answer is awaited.
    SigningIn,
    /// Signed in; requests and responses flow.
    Connected,
    /// Over: refused by the server, or the user interface is gone.
    Finished,
}

/// Something that happened to the driver.
#[derive(Debug, PartialEq)]
pub enum Input {
    /// A socket gave a response.
    Arrived(Response),
    /// The user interface gave a request, or `None` when it has closed its
    /// channel.
    Asked(Option<Request>),
    /// The user interface did not take a response that was to be passed on.
    Undelivered,
}

pub enum InputView {
    Arrived(ResponseView),
    Asked(Option<RequestView>),
    Undelivered,
}

impl View for Input {
    type V = InputView;

    open spec fn view(&self) -> InputView {
        match self {
            Input::Arrived(response) => InputView::Arrived(response@),
            Input::Asked(Some(request)) => InputView::Asked(Some(request@)),
            Input::Asked(None) => InputView::Asked(None),
            Input::Undelivered => InputView::Undelivered,
        }
    }
}

/// What the caller is to do next.
#[derive(Debug, PartialEq)]
pub enum Output {
    /// The server took the sign-in: connect the datagram socket to this
    /// address.
    Connect(SocketAddress),
    /// The sign-in failed for this reason: give up.
    Abort(Error),
    /// Send the request over the stream.
    Stream(Request),
    /// Send the request over the datagram socket.
    Datagram(Request),
    /// Pass the response on to the user interface; if it does not take the
    /// response, say so with [`Input::Undelivered`].
    Deliver(Response),
    /// The user is gone: end without error.
    Finish,
    /// The user interface is gone while responses still arrive: give up.
    Broken,
    /// Nothing.
    Nothing,
}

pub enum OutputView {
    Connect(SocketAddress),
    Abort(Error),
    Stream(RequestView),
    Datagram(RequestView),
    Deliver(ResponseView),
    Finish,
    Broken,
    Nothing,
}

impl View for Output {
    type V = OutputView;

    open spec fn view(&self) -> OutputView {
        match self {
            Output::Connect(address) => OutputView::Connect(*address),
            Output::Abort(reason) => OutputView::Abort(*reason),
            Output::Stream(request) => OutputView::Stream(request@),
            Output::Datagram(request) => OutputView::Datagram(request@),
            Output::Deliver(response) => OutputView::Deliver(response@),
            Output::Finish => OutputView::Finish,
            Output::Broken => OutputView::Broken,
            Output::Nothing => OutputView::Nothing,
        }
    }
}

/// What the server's answer to the sign-in means: its datagram address if
/// it welcomes the client, else the reason of the failure. A chat message
/// is no answer to a sign-in.
pub open spec fn welcome(response: ResponseView) -> Result<SocketAddress, Error> {
    match response {
        ResponseView::Welcome(address) => Ok(address),
        ResponseView::Error(reason) => Err(reason),
        ResponseView::Message(_) => Err(Error::InvalidServerResponse),
    }
}

/// The way out for a request: a direct message that asks for the datagram
/// transport goes over the datagram socket; a broadcast that asks for it
/// goes nowhere; everything else goes over the stream.
pub open spec fn outbound(request: RequestView) -> OutputView {
    match request {
        RequestView::Send { protocol: Protocol::Udp, .. } => OutputView::Datagram(request),
        RequestView::SendAll { protocol: Protocol::Udp, .. } => OutputView::Nothing,
        _ => OutputView::Stream(request),
    }
}

/// The whole table: the stage and the output that follow from a stage and
/// an input.
pub open spec fn decide(stage: Stage, input: InputView) -> (Stage, OutputView) {
    match stage {
        Stage::SigningIn => match input {
            InputView::Arrived(response) => match welcome(response) {
                Ok(address) => (Stage::Connected, OutputView::Connect(address)),
                Err(reason) => (Stage::Finished, OutputView::Abort(reason)),
            },
            _ => (Stage::SigningIn, OutputView::Nothing),
        },
        Stage::Connected => match input {
            InputView::Asked(None) => (Stage::Finished, OutputView::Finish),
            InputView::Asked(Some(request)) => (Stage::Connected, outbound(request)),
            InputView::Arrived(response) => (Stage::Connected, OutputView::Deliver(response)),
            InputView::Undelivered => (Stage::Finished, OutputView::Broken),
        },
        Stage::Finished => (Stage::Finished, OutputView::Nothing),
    }
}

/// The request that opens a session for `name`, with the address that the
/// client's datagram socket is bound to.
pub fn login(name: &str, local_udp: SocketAddress) -> (request: Request)
    ensures
        request@ == (RequestView::SignIn { name: name@, udp: local_udp }),
{
    Request::SignIn { name: name.to_owned(), udp: local_udp }
}

/// The client's side of one session.
pub struct Driver {
    stage: Stage,
}

impl Driver {
    pub closed spec fn stage_of(&self) -> Stage {
        self.stage
    }

    /// A driver whose sign-in is on its way.
    pub fn new() -> (driver: Driver)
        ensures
            driver.stage_of() == Stage::SigningIn,
    {
        Driver { stage: Stage::SigningIn }
    }

    #[verifier::when_used_as_spec(stage_of)]
    pub fn stage(&self) -> (stage: Stage)
        ensures
            stage == self.stage_of(),
    {
        self.stage
    }

    /// Takes an input and says what to do.
    pub fn step(&mut self, input: Input) -> (output: Output)
        ensures
            (final(self).stage_of(), output@) == decide(old(self).stage_of(), input@),
    {
        match self.stage {
            Stage::SigningIn => match input {
                Input::Arrived(Response::Welcome(address)) => {
                    self.stage = Stage::Connected;
                    Output::Connect(address)
                },
                Input::Arrived(Response::Error(reason)) => {
                    self.stage = Stage::Finished;
                    Output::Abort(reason)
                },
                Input::Arrived(Response::Message(_)) => {
                    self.stage = Stage::Finished;
                    Output::Abort(Error::InvalidServerResponse)
                },
                _ => Output::Nothing,
            },
            Stage::Connected => match input {
                Input::Asked(None) => {
                    self.stage = Stage::Finished;
                    Output::Finish
                },
                Input::Asked(Some(request)) => match request {
                    Request::Send { protocol: Protocol::Udp, .. } => Output::Datagram(request),
                    Request::SendAll { protocol: Protocol::Udp, .. } => Output::Nothing,
                    other => Output::Stream(other),
                },
                Input::Arrived(response) => Output::Deliver(response),
                Input::Undelivered => {
                    self.stage = Stage::Finished;
                    Output::Broken
                },
            },
            Stage::Finished => Output::Nothing,
        }
    }
}

} // verus!
