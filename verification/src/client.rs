//! The client: its credentials, its bearer token, and the protocol that
//! renews the token when the gateway rejects it.
//!
//! The client sends nothing itself. `send_request` is a state machine: it is
//! told what happened (a `Signal`) and answers what to do next (an `Action`).
//! Whoever owns the transport performs the action and reports back, until the
//! action is `Action::Finish`.

use crate::config::HashGateConfig;
use crate::error::HashGateError;
use crate::guid::{uuid_parse, uuid_text, Guid};
use crate::http::{
    is_success, success_status, Call, Endpoint, Method, Reply, Request, Transfer, UNAUTHORIZED,
};
use crate::types::requests::ClientAuthReq;
use crate::types::responses::AuthResponse;
use vstd::prelude::*;

verus! {

/// The base URL of a gateway that runs locally.
pub const DEFAULT_URL_BASE: &'static str = "http://localhost:8083/api/";

/// What came of one attempt of a request: a reply, whatever its status, or a
/// failure of the transport.
pub type Attempted<R> = Transfer<Reply<R>>;

/// What came of a credential exchange: the transport may fail, and so may
/// the decoding of the reply's body.
pub type Exchanged = Transfer<Reply<Transfer<AuthResponse>>>;

/// A client as contracts see it.
pub struct ClientView {
    pub client_id: u128,
    pub client_secret: Seq<char>,
    pub token: Option<Seq<char>>,
    pub url_base: Seq<char>,
}

/// A client of one HashGate user pool.
#[derive(Debug)]
pub struct HashGateClient {
    client_id: Guid,
    client_secret: String,
    token: Option<String>,
    url_base: String,
}

impl View for HashGateClient {
    type V = ClientView;

    closed spec fn view(&self) -> ClientView {
        ClientView {
            client_id: self.client_id.bits,
            client_secret: self.client_secret@,
            token: match self.token {
                Some(t) => Some(t@),
                None => None,
            },
            url_base: self.url_base@,
        }
    }
}

impl Clone for HashGateClient {
    fn clone(&self) -> (r: HashGateClient)
        ensures
            r@ == self@,
    {
        HashGateClient {
            client_id: self.client_id,
            client_secret: self.client_secret.clone(),
            token: match &self.token {
                Some(token) => Some(token.clone()),
                None => None,
            },
            url_base: self.url_base.clone(),
        }
    }
}

/// How far one request has come.
#[derive(Debug, Clone, Copy, PartialEq, Eq, Structural)]
pub enum Stage {
    /// Nothing has been sent.
    Ready,
    /// The first attempt is under way.
    FirstAttempt,
    /// The first attempt was rejected; a credential exchange is under way.
    Refreshing,
    /// The token was renewed; the second attempt is under way.
    SecondAttempt,
    /// The request has its final outcome.
    Finished,
}

/// What the driver reports to the client.
#[derive(Debug)]
pub enum Signal<R> {
    /// A request is to be made.
    Begin,
    /// The attempt that was asked for has this outcome.
    Attempted(Attempted<R>),
    /// The credential exchange that was asked for has this outcome.
    Exchanged(Exchanged),
}

/// What the client asks of the driver.
#[derive(Debug)]
pub enum Action<R> {
    /// Send the request with this bearer token.
    Attempt { token: String },
    /// Exchange the client's credentials for a new token.
    Authenticate { request: Request, payload: ClientAuthReq },
    /// Stop: this is the request's outcome.
    Finish(Result<Reply<R>, HashGateError>),
}

/// An action as contracts see it.
pub enum ActionView<R> {
    Attempt { token: Seq<char> },
    Authenticate { method: Method, url: Seq<char>, client_id: Seq<char>, client_secret: Seq<char> },
    Finish(Result<Reply<R>, HashGateError>),
}

impl<R> View for Action<R> {
    type V = ActionView<R>;

    open spec fn view(&self) -> ActionView<R> {
        match *self {
            Action::Attempt { token } => ActionView::Attempt { token: token@ },
            Action::Authenticate { request, payload } => ActionView::Authenticate {
                method: request.method,
                url: request.url@,
                client_id: payload.client_id@,
                client_secret: payload.client_secret@,
            },
            Action::Finish(outcome) => ActionView::Finish(outcome),
        }
    }
}

/// The token that a credential exchange grants, or the error it ends in. A
/// token is granted only by a reply with a success status whose body decodes
/// and holds one. Every other reply is `FailedSignIn`, whatever it lacks; no
/// reply at all is the transport's error.
pub open spec fn granted(outcome: Exchanged) -> Result<Seq<char>, HashGateError> {
    match outcome {
        Err(e) => Err(HashGateError::Request(e)),
        Ok(reply) => if success_status(reply.status) {
            match reply.body {
                Ok(body) => match body.token {
                    Some(token) => Ok(token@),
                    None => Err(HashGateError::FailedSignIn),
                },
                Err(_) => Err(HashGateError::FailedSignIn),
            }
        } else {
            Err(HashGateError::FailedSignIn)
        },
    }
}

/// The outcome of a request whose last attempt came to `outcome`.
pub open spec fn settled<R>(outcome: Attempted<R>) -> Result<Reply<R>, HashGateError> {
    match outcome {
        Ok(reply) => Ok(reply),
        Err(e) => Err(HashGateError::Request(e)),
    }
}

/// The credential exchange that a client asks for.
pub open spec fn exchange_of<R>(client: ClientView) -> ActionView<R> {
    ActionView::Authenticate {
        method: Method::Post,
        url: client.url_base + Endpoint::ClientAuth.spec_path(),
        client_id: uuid_text(client.client_id),
        client_secret: client.client_secret,
    }
}

/// What an operation's call comes to on a client: without a token
/// `NoClientToken`, and with one a POST to the endpoint below the client's
/// base URL.
pub open spec fn posted<P>(
    client: ClientView,
    endpoint: Endpoint,
    r: Result<Call<P>, HashGateError>,
) -> bool {
    match client.token {
        None => r matches Err(HashGateError::NoClientToken),
        Some(_) => r matches Ok(call) && call.request.method == Method::Post && call.request.url@
            == client.url_base + endpoint.spec_path(),
    }
}

impl Stage {
    /// The signals that a driver reports at a stage if it keeps to the
    /// protocol: `Begin` before anything was sent, then the outcome of what
    /// the last action asked for.
    pub open spec fn expects<R>(self, signal: Signal<R>) -> bool {
        match self {
            Stage::Ready => signal is Begin,
            Stage::FirstAttempt => signal is Attempted,
            Stage::Refreshing => signal is Exchanged,
            Stage::SecondAttempt => signal is Attempted,
            Stage::Finished => false,
        }
    }

    /// Whether `signal` is what a driver that keeps to the protocol reports at
    /// this stage.
    pub fn accepts<R>(self, signal: &Signal<R>) -> (r: bool)
        ensures
            r == self.expects(*signal),
    {
        match self {
            Stage::Ready => match signal {
                Signal::Begin => true,
                _ => false,
            },
            Stage::FirstAttempt => match signal {
                Signal::Attempted(_) => true,
                _ => false,
            },
            Stage::Refreshing => match signal {
                Signal::Exchanged(_) => true,
                _ => false,
            },
            Stage::SecondAttempt => match signal {
                Signal::Attempted(_) => true,
                _ => false,
            },
            Stage::Finished => false,
        }
    }
}

/// One step of the protocol: the client, the stage and the action that follow
/// from a signal. The stage matters to one signal only: the outcome of an
/// attempt leads to a credential exchange at `Stage::FirstAttempt` and
/// nowhere else.
pub open spec fn next<R>(client: ClientView, stage: Stage, signal: Signal<R>) -> (
    ClientView,
    Stage,
    ActionView<R>,
) {
    match signal {
        Signal::Begin => match client.token {
            Some(token) => (client, Stage::FirstAttempt, ActionView::Attempt { token }),
            None => (
                client,
                Stage::Finished,
                ActionView::Finish(Err(HashGateError::NoClientToken)),
            ),
        },
        Signal::Attempted(outcome) => if stage is FirstAttempt && (outcome matches Ok(reply)
            && reply.status == UNAUTHORIZED) {
            (client, Stage::Refreshing, exchange_of(client))
        } else {
            (client, Stage::Finished, ActionView::Finish(settled(outcome)))
        },
        Signal::Exchanged(outcome) => match granted(outcome) {
            Ok(token) => (
                ClientView { token: Some(token), ..client },
                Stage::SecondAttempt,
                ActionView::Attempt { token },
            ),
            Err(e) => (client, Stage::Finished, ActionView::Finish(Err(e))),
        },
    }
}

/// A credential exchange grants a token exactly when the reply has a success
/// status and its body decodes and holds a token. A reply that lacks either
/// is `FailedSignIn`.
pub proof fn law_grant_needs_status_and_token(outcome: Exchanged)
    ensures
        granted(outcome) is Ok <==> ({
            &&& outcome matches Ok(reply)
            &&& success_status(reply.status)
            &&& reply.body matches Ok(body)
            &&& body.token is Some
        }),
        outcome is Ok && granted(outcome) is Err ==> granted(outcome) == Err::<
            Seq<char>,
            HashGateError,
        >(HashGateError::FailedSignIn),
{
}

/// The protocol is closed. After any step the next stage expects the outcome
/// of what the action asks for, whatever that outcome is, and it is
/// `Finished` exactly when the action is `Finish`. No step touches the
/// client's identity or its base URL.
pub proof fn law_next_expects_the_answer<R>(
    client: ClientView,
    stage: Stage,
    signal: Signal<R>,
    attempted: Attempted<R>,
    exchanged: Exchanged,
)
    ensures
        next(client, stage, signal).2 is Attempt ==> next(client, stage, signal).1.expects(
            Signal::Attempted(attempted),
        ),
        next(client, stage, signal).2 is Authenticate ==> next(client, stage, signal).1.expects(
            Signal::<R>::Exchanged(exchanged),
        ),
        next(client, stage, signal).2 is Finish <==> next(client, stage, signal).1 is Finished,
        next(client, stage, signal).0.client_id == client.client_id,
        next(client, stage, signal).0.client_secret == client.client_secret,
        next(client, stage, signal).0.url_base == client.url_base,
{
}

impl HashGateClient {
    /// Makes a client from its configuration. The client holds no token yet:
    /// it becomes usable with the first successful `try_authenticate`.
    pub fn try_new(config: HashGateConfig) -> (r: Result<HashGateClient, HashGateError>)
        ensures
            uuid_parse(config.client_id@) matches Some(bits) ==> (r matches Ok(client)
                && client@ == (ClientView {
                client_id: bits,
                client_secret: config.client_secret@,
                token: None,
                url_base: DEFAULT_URL_BASE@,
            })),
            uuid_parse(config.client_id@) is None ==> r matches Err(HashGateError::Uuid(_)),
    {
        match Guid::parse(config.client_id.as_str()) {
            Ok(client_id) => Ok(
                HashGateClient {
                    client_id,
                    client_secret: config.client_secret,
                    token: None,
                    url_base: String::from_str(DEFAULT_URL_BASE),
                },
            ),
            Err(e) => Err(HashGateError::from(e)),
        }
    }

    /// Whether the client holds a bearer token.
    pub fn has_token(&self) -> (r: bool)
        ensures
            r == self@.token is Some,
    {
        self.token.is_some()
    }

    /// The bearer token that the client holds.
    pub fn token(&self) -> (r: Option<&str>)
        ensures
            r is Some == self@.token is Some,
            r matches Some(t) ==> self@.token == Some(t@),
    {
        match &self.token {
            Some(t) => Some(t.as_str()),
            None => None,
        }
    }

    /// The request and payload of a credential exchange for this client.
    pub fn credential_exchange(&self) -> (r: (Request, ClientAuthReq))
        ensures
            r.0.method == Method::Post,
            r.0.url@ == self@.url_base + Endpoint::ClientAuth.spec_path(),
            r.1.client_id@ == uuid_text(self@.client_id),
            r.1.client_secret@ == self@.client_secret,
    {
        let url = self.url_base.clone().concat(Endpoint::ClientAuth.path());
        let payload = ClientAuthReq {
            client_id: self.client_id.text(),
            client_secret: self.client_secret.clone(),
        };
        (Request { method: Method::Post, url }, payload)
    }

    /// Takes in the outcome of a credential exchange. A granted token
    /// replaces the one held; any other outcome is an error and changes
    /// nothing.
    pub fn try_authenticate(&mut self, outcome: Exchanged) -> (r: Result<(), HashGateError>)
        ensures
            match granted(outcome) {
                Ok(token) => r is Ok && final(self)@ == (ClientView {
                    token: Some(token),
                    ..old(self)@
                }),
                Err(e) => r == Err::<(), HashGateError>(e) && final(self)@ == old(self)@,
            },
    {
        match outcome {
            Err(e) => Err(HashGateError::from(e)),
            Ok(reply) => {
                if is_success(reply.status) {
                    match reply.body {
                        Ok(body) => match body.token {
                            Some(token) => {
                                self.token = Some(token);
                                Ok(())
                            },
                            None => Err(HashGateError::FailedSignIn),
                        },
                        Err(_) => Err(HashGateError::FailedSignIn),
                    }
                } else {
                    Err(HashGateError::FailedSignIn)
                }
            },
        }
    }

    /// Completes the making of a client with the outcome of its first
    /// credential exchange: the client is handed on only if a token was
    /// granted, and then holds it.
    pub fn authenticated(self, outcome: Exchanged) -> (r: Result<HashGateClient, HashGateError>)
        ensures
            match granted(outcome) {
                Ok(token) => r matches Ok(client) && client@ == (ClientView {
                    token: Some(token),
                    ..self@
                }),
                Err(e) => r matches Err(err) && err == e,
            },
    {
        let mut client = self;
        match client.try_authenticate(outcome) {
            Ok(()) => Ok(client),
            Err(e) => Err(e),
        }
    }

    /// One step of a request: takes in what the driver reports and says what
    /// it is to do next. A request starts at `Stage::Ready` with
    /// `Signal::Begin`. From then on the driver does what the action asks for
    /// and reports the outcome together with the stage it was given, until
    /// the action is `Action::Finish`.
    ///
    /// The request is attempted with the token held. Only a reply with status
    /// 401 leads to a credential exchange, and only the first one: the
    /// outcome of the second attempt is final, whatever its status.
    pub fn send_request<R>(&mut self, stage: Stage, signal: Signal<R>) -> (r: (Stage, Action<R>))
        ensures
            final(self)@ == next(old(self)@, stage, signal).0,
            r.0 == next(old(self)@, stage, signal).1,
            r.1@ == next(old(self)@, stage, signal).2,
    {
        match signal {
            Signal::Begin => match &self.token {
                Some(token) => (Stage::FirstAttempt, Action::Attempt { token: token.clone() }),
                None => (Stage::Finished, Action::Finish(Err(HashGateError::NoClientToken))),
            },
            Signal::Attempted(outcome) => match stage {
                Stage::FirstAttempt => match outcome {
                    Ok(reply) => {
                        if reply.status == UNAUTHORIZED {
                            let (request, payload) = self.credential_exchange();
                            (Stage::Refreshing, Action::Authenticate { request, payload })
                        } else {
                            (Stage::Finished, Action::Finish(Ok(reply)))
                        }
                    },
                    Err(e) => (Stage::Finished, Action::Finish(Err(HashGateError::from(e)))),
                },
                _ => match outcome {
                    Ok(reply) => (Stage::Finished, Action::Finish(Ok(reply))),
                    Err(e) => (Stage::Finished, Action::Finish(Err(HashGateError::from(e)))),
                },
            },
            Signal::Exchanged(outcome) => match self.try_authenticate(outcome) {
                Ok(()) => match &self.token {
                    Some(token) => (Stage::SecondAttempt, Action::Attempt { token: token.clone() }),
                    None => (Stage::Finished, Action::Finish(Err(HashGateError::NoClientToken))),
                },
                Err(e) => (Stage::Finished, Action::Finish(Err(e))),
            },
        }
    }

    /// The request that posts to `endpoint`, for a client that holds a token.
    pub fn post(&self, endpoint: &str) -> (r: Result<Request, HashGateError>)
        ensures
            self@.token is None ==> r matches Err(HashGateError::NoClientToken),
            self@.token is Some ==> (r matches Ok(request) && request.method == Method::Post
                && request.url@ == self@.url_base + endpoint@),
    {
        if self.token.is_some() {
            Ok(Request { method: Method::Post, url: self.url_base.clone().concat(endpoint) })
        } else {
            Err(HashGateError::NoClientToken)
        }
    }

    /// The call that posts `payload` to `endpoint`, for a client that holds a
    /// token.
    pub fn call<P>(&self, endpoint: Endpoint, payload: P) -> (r: Result<Call<P>, HashGateError>)
        ensures
            posted(self@, endpoint, r),
            r matches Ok(call) ==> call.payload == payload,
    {
        match self.post(endpoint.path()) {
            Ok(request) => Ok(Call { request, payload }),
            Err(e) => Err(e),
        }
    }

    /// The request that gets `endpoint`, for a client that holds a token.
    pub fn get(&self, endpoint: &str) -> (r: Result<Request, HashGateError>)
        ensures
            self@.token is None ==> r matches Err(HashGateError::NoClientToken),
            self@.token is Some ==> (r matches Ok(request) && request.method == Method::Get
                && request.url@ == self@.url_base + endpoint@),
    {
        if self.token.is_some() {
            Ok(Request { method: Method::Get, url: self.url_base.clone().concat(endpoint) })
        } else {
            Err(HashGateError::NoClientToken)
        }
    }
}

} // verus!
