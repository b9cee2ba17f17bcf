//! The request dispatcher: what the gateway decides at each step of
//! answering a request.
//!
//! Answering a request takes outside work (reading the body, asking the
//! session store, talking to the identity provider) between decisions.
//! The embedding program does that work. It starts with
//! `Stage::Start` and the request that arrived, performs the action that
//! comes back, and returns with the stage it was given and the outcome of
//! the action as the next event, until the action is a response or a
//! failure. Every failure is a bare status; an event that does not belong
//! to the stage is an internal error.

use crate::auth::{query_code, query_state, CodeExchanger, Redirect};
use crate::binding::{binding, callback_state_matches, login_state, state_matches, state_text};
use crate::cookie::{cookie_text, extract_session, named_session, session_cookie};
use crate::encoding::{decode, hex_decoded, is_hex};
use crate::lobby::{interaction_outcome, Handling, Interaction, Lobby, Reply};
use crate::router::{route, routed, Method, Route, Status};
use crate::session::{ObjectId, Session};
use crate::signature::{authentic, Verifier};
use tokio::sync::oneshot::Receiver;
use vstd::prelude::*;
use vstd::string::StringSliceAdditionalSpecFns;

verus! {

/// What the dispatcher reads of a request before its body.
#[derive(Clone, Debug, PartialEq, Eq)]
pub struct Request {
    pub method: Method,
    pub path: Vec<u8>,
    /// The query of the address, without the question mark.
    pub query: Option<Vec<u8>>,
    /// The signature header, if it is there and is readable text.
    pub signature: Option<Vec<u8>>,
    /// The timestamp header, if it is there and is readable text.
    pub timestamp: Option<Vec<u8>>,
    /// The `Cookie` header, if it is there.
    pub cookie: Option<Vec<u8>>,
}

/// What the identity provider hands out for an authorization code.
#[derive(Clone, Debug, PartialEq, Eq)]
pub struct Tokens {
    pub access: String,
    pub refresh: String,
    pub expires: u64,
}

/// What the session store answered to a lookup.
#[derive(Clone, Debug, PartialEq, Eq)]
pub enum Lookup {
    /// The store could not be asked.
    Failed,
    /// There is no such session.
    Missing,
    Found(Session),
}

/// What the session store answered to a creation.
#[derive(Clone, Copy, Debug, PartialEq, Eq)]
pub enum Creation {
    /// The store could not be asked.
    Failed,
    /// The identifier generated for the session is taken.
    AlreadyExists,
    Created(ObjectId),
}

/// The outcome of the outside work that an action asked for. `None`
/// stands for work that failed.
#[derive(Clone, Debug, PartialEq, Eq)]
pub enum Event {
    /// A request arrived.
    Arrived(Request),
    /// The body was read.
    Body(Option<Vec<u8>>),
    /// The body was parsed as an interaction.
    Parsed(Option<Interaction>),
    /// The reply was written out as JSON.
    Encoded(Option<Vec<u8>>),
    /// The session store was asked for a session.
    Session(Lookup),
    /// The submission was stored under this identifier.
    Stored(Option<ObjectId>),
    /// A nonce was drawn.
    Nonce(u64),
    /// The session store was asked to create a session.
    Created(Creation),
    /// The identity provider was asked for tokens.
    Tokens(Option<Tokens>),
    /// The platform was asked who the tokens belong to.
    Identity(Option<u64>),
    /// The session store was asked to upgrade a session.
    Upgraded(Option<bool>),
}

/// How far the answer to a request has come, with what has to be
/// remembered for the next step.
#[derive(Clone, Debug, PartialEq, Eq)]
pub enum Stage {
    Start,
    WebhookBody { signature: Vec<u8>, timestamp: Vec<u8> },
    WebhookParse,
    WebhookEncode,
    SubmitSession,
    SubmitStore,
    LoginNonce,
    LoginCreate { nonce: u64 },
    CallbackSession { id: ObjectId, query: Option<Vec<u8>> },
    CallbackExchange { id: ObjectId },
    CallbackIdentity { id: ObjectId, tokens: Tokens },
    CallbackUpgrade,
    Done,
}

/// A response that is not a failure.
#[derive(Clone, Debug, PartialEq, Eq)]
pub enum Response {
    /// `200` with a JSON body.
    Json { body: Vec<u8> },
    /// `201` with the identifier of what was created.
    Created { id: ObjectId },
    /// `302` to the consent page, with the session cookie to set.
    LoginRedirect { location: Vec<u8>, cookie: Vec<u8> },
    /// `302` to the root of the application, with no cookie.
    HomeRedirect,
}

/// Where a completed login sends the user: the root of the application.
pub const HOME_LOCATION: &'static str = "/";

/// The content type of a reply to a webhook.
pub const JSON_CONTENT_TYPE: &'static str = "application/json";

/// A response as it goes out: its status, the three headers that the
/// gateway sets, and its body.
#[derive(Clone, Debug, PartialEq, Eq)]
pub struct Wire {
    pub status: Status,
    pub content_type: Option<&'static str>,
    pub location: Option<Vec<u8>>,
    pub cookie: Option<Vec<u8>>,
    pub body: Vec<u8>,
}

/// How a response goes out. A reply to a webhook is its JSON text with
/// the content type set. What was created is named by the raw bytes of
/// its identifier. A redirect has a location and no body, and only the
/// redirect of a login sets a cookie.
pub open spec fn on_wire(response: Response, wire: Wire) -> bool {
    &&& wire.status == response.spec_status()
    &&& match response {
        Response::Json { body } => {
            &&& wire.content_type matches Some(text)
            &&& text@ == JSON_CONTENT_TYPE@
            &&& wire.location is None
            &&& wire.cookie is None
            &&& wire.body == body
        },
        Response::Created { id } => {
            &&& wire.content_type is None
            &&& wire.location is None
            &&& wire.cookie is None
            &&& wire.body@ == id@
        },
        Response::LoginRedirect { location, cookie } => {
            &&& wire.content_type is None
            &&& wire.location == Some(location)
            &&& wire.cookie == Some(cookie)
            &&& wire.body@ == Seq::<u8>::empty()
        },
        Response::HomeRedirect => {
            &&& wire.content_type is None
            &&& wire.location matches Some(location)
            &&& location@ == HOME_LOCATION.spec_bytes()
            &&& wire.cookie is None
            &&& wire.body@ == Seq::<u8>::empty()
        },
    }
}

impl Response {
    /// Lays the response out as it goes on the wire.
    pub fn into_wire(self) -> (out: Wire)
        ensures
            on_wire(self, out),
    {
        let status = self.status();
        match self {
            Response::Json { body } => Wire {
                status,
                content_type: Some(JSON_CONTENT_TYPE),
                location: None,
                cookie: None,
                body,
            },
            Response::Created { id } => {
                let mut body: Vec<u8> = Vec::new();
                body.extend_from_slice(id.bytes.as_slice());
                assert(body@ =~= id@);
                Wire { status, content_type: None, location: None, cookie: None, body }
            },
            Response::LoginRedirect { location, cookie } => Wire {
                status,
                content_type: None,
                location: Some(location),
                cookie: Some(cookie),
                body: Vec::new(),
            },
            Response::HomeRedirect => {
                let mut location: Vec<u8> = Vec::new();
                location.extend_from_slice(HOME_LOCATION.as_bytes());
                assert(location@ =~= HOME_LOCATION.spec_bytes());
                Wire {
                    status,
                    content_type: None,
                    location: Some(location),
                    cookie: None,
                    body: Vec::new(),
                }
            },
        }
    }

    /// The status that the response goes out with.
    pub open spec fn spec_status(self) -> Status {
        match self {
            Response::Json { .. } => Status::Success,
            Response::Created { .. } => Status::Created,
            Response::LoginRedirect { .. } => Status::Found,
            Response::HomeRedirect => Status::Found,
        }
    }

    /// The status that the response goes out with.
    pub fn status(&self) -> (out: Status)
        ensures
            out == self.spec_status(),
    {
        match self {
            Response::Json { .. } => Status::Success,
            Response::Created { .. } => Status::Created,
            Response::LoginRedirect { .. } => Status::Found,
            Response::HomeRedirect => Status::Found,
        }
    }
}

/// What the embedding program is to do next.
#[derive(Clone, Debug, PartialEq, Eq)]
pub enum Action {
    /// Read the body of the request.
    ReadBody,
    /// Parse the body as an interaction.
    Parse,
    /// Hand the interaction to the logic that starts a quiz, and answer
    /// with its reply.
    StartQuiz,
    /// Write the reply out as JSON.
    Encode(Reply),
    /// Ask the session store for this session.
    LoadSession(ObjectId),
    /// Read the body and store it as a submission of this user.
    Store { user: u64 },
    /// Draw a fresh random nonce.
    DrawNonce,
    /// Ask the session store for a new pending session with this nonce.
    CreateSession { nonce: u64 },
    /// Send this form to the token endpoint.
    Exchange { form: Vec<u8> },
    /// Ask the platform whom this access token belongs to.
    Identify { access: String },
    /// Ask the session store to upgrade this session.
    Upgrade { id: ObjectId, user: u64, access: String, refresh: String, expires: u64 },
    /// Send this response.
    Respond(Response),
    /// Send this status and nothing else.
    Fail(Status),
}

/// The request ends with the bare status `status`.
pub open spec fn fails(next: Stage, action: Action, status: Status) -> bool {
    next is Done && action == Action::Fail(status)
}

/// The bytes of a header that may be absent.
pub open spec fn bytes_of(header: Option<Vec<u8>>) -> Option<Seq<u8>> {
    match header {
        Some(bytes) => Some(bytes@),
        None => None,
    }
}

/// The first step: the request is routed, and what can be told from its
/// headers alone is checked.
pub open spec fn on_arrival(request: Request, next: Stage, action: Action) -> bool {
    match routed(request.method, request.path@) {
        Err(status) => fails(next, action, status),
        Ok(Route::Webhook) => match (request.signature, request.timestamp) {
            (Some(text), Some(time)) => if is_hex(text@) {
                &&& next matches Stage::WebhookBody { signature, timestamp }
                &&& signature@ == hex_decoded(text@)
                &&& timestamp@ == time@
                &&& action is ReadBody
            } else {
                fails(next, action, Status::BadRequest)
            },
            _ => fails(next, action, Status::BadRequest),
        },
        Ok(Route::Submit) => match named_session(bytes_of(request.cookie)) {
            Err(status) => fails(next, action, status),
            Ok(session) => {
                &&& next is SubmitSession
                &&& action matches Action::LoadSession(id)
                &&& id@ == session
            },
        },
        Ok(Route::Login) => next is LoginNonce && action is DrawNonce,
        Ok(Route::Callback) => match named_session(bytes_of(request.cookie)) {
            Err(status) => fails(next, action, status),
            Ok(session) => {
                &&& next matches Stage::CallbackSession { id, query }
                &&& id@ == session
                &&& query == request.query
                &&& action == Action::LoadSession(id)
            },
        },
    }
}

/// The webhook's body was read: the signature decides.
pub open spec fn on_body(
    key: Seq<u8>,
    signature: Seq<u8>,
    timestamp: Seq<u8>,
    body: Option<Vec<u8>>,
    next: Stage,
    action: Action,
) -> bool {
    match body {
        None => fails(next, action, Status::InternalServerError),
        Some(payload) => if authentic(key, payload@, timestamp, signature) {
            next is WebhookParse && action is Parse
        } else {
            fails(next, action, Status::Unauthorized)
        },
    }
}

/// The webhook's body was parsed: the lobby handles the interaction.
pub open spec fn on_parsed(
    parsed: Option<Interaction>,
    before: Set<u64>,
    after: Set<u64>,
    next: Stage,
    action: Action,
) -> bool {
    match parsed {
        None => after == before && fails(next, action, Status::BadRequest),
        Some(interaction) => match action {
            Action::Encode(reply) => next is WebhookEncode && interaction_outcome(
                interaction,
                before,
                Handling::Reply(reply),
                after,
            ),
            Action::StartQuiz => next is Done && interaction_outcome(
                interaction,
                before,
                Handling::Create,
                after,
            ),
            _ => false,
        },
    }
}

/// The reply was written out.
pub open spec fn on_encoded(encoded: Option<Vec<u8>>, next: Stage, action: Action) -> bool {
    match encoded {
        None => fails(next, action, Status::InternalServerError),
        Some(body) => next is Done && action == Action::Respond(Response::Json { body }),
    }
}

/// The session of a submission was looked up: only an authenticated
/// session may submit.
pub open spec fn on_submit_session(lookup: Lookup, next: Stage, action: Action) -> bool {
    match lookup {
        Lookup::Failed => fails(next, action, Status::InternalServerError),
        Lookup::Missing => fails(next, action, Status::Unauthorized),
        Lookup::Found(Session::Pending { .. }) => fails(next, action, Status::Forbidden),
        Lookup::Found(Session::Authenticated { external_id, .. }) => next is SubmitStore && action
            == (Action::Store { user: external_id }),
    }
}

/// The submission was stored.
pub open spec fn on_stored(stored: Option<ObjectId>, next: Stage, action: Action) -> bool {
    match stored {
        None => fails(next, action, Status::InternalServerError),
        Some(id) => next is Done && action == Action::Respond(Response::Created { id }),
    }
}

/// The session of a login was created: the redirect carries the binding
/// value as `state`, and the cookie carries the session identifier.
pub open spec fn on_created(
    prefix: Seq<u8>,
    nonce: u64,
    creation: Creation,
    next: Stage,
    action: Action,
) -> bool {
    match creation {
        Creation::Failed => fails(next, action, Status::InternalServerError),
        Creation::AlreadyExists => fails(next, action, Status::Forbidden),
        Creation::Created(id) => {
            &&& next is Done
            &&& action matches Action::Respond(Response::LoginRedirect { location, cookie })
            &&& location@ == prefix + state_text(binding(id@, nonce))
            &&& cookie@ == cookie_text(id@)
        },
    }
}

/// The session of a callback was looked up: it has to be pending, and
/// the `state` in the query has to be the binding value of the session.
pub open spec fn on_callback_session(
    exchanger: CodeExchanger,
    id: ObjectId,
    query: Option<Vec<u8>>,
    lookup: Lookup,
    next: Stage,
    action: Action,
) -> bool {
    match lookup {
        Lookup::Failed => fails(next, action, Status::InternalServerError),
        Lookup::Missing => fails(next, action, Status::Unauthorized),
        Lookup::Found(Session::Authenticated { .. }) => fails(next, action, Status::Forbidden),
        Lookup::Found(Session::Pending { nonce }) => match query {
            None => fails(next, action, Status::BadRequest),
            Some(query) => match (query_code(query@), query_state(query@)) {
                (Some(code), Some(state)) => if state_matches(binding(id@, nonce), state) {
                    &&& next == (Stage::CallbackExchange { id })
                    &&& action matches Action::Exchange { form }
                    &&& form@ == exchanger.form(code)
                } else {
                    fails(next, action, Status::BadRequest)
                },
                _ => fails(next, action, Status::BadRequest),
            },
        },
    }
}

/// The tokens arrived.
pub open spec fn on_tokens(id: ObjectId, tokens: Option<Tokens>, next: Stage, action: Action)
    -> bool {
    match tokens {
        None => fails(next, action, Status::InternalServerError),
        Some(tokens) => next == (Stage::CallbackIdentity { id, tokens }) && action
            == (Action::Identify { access: tokens.access }),
    }
}

/// The owner of the tokens is known.
pub open spec fn on_identity(
    id: ObjectId,
    tokens: Tokens,
    identity: Option<u64>,
    next: Stage,
    action: Action,
) -> bool {
    match identity {
        None => fails(next, action, Status::InternalServerError),
        Some(user) => next is CallbackUpgrade && action == (Action::Upgrade {
            id,
            user,
            access: tokens.access,
            refresh: tokens.refresh,
            expires: tokens.expires,
        }),
    }
}

/// The session store answered the upgrade.
pub open spec fn on_upgraded(upgraded: Option<bool>, next: Stage, action: Action) -> bool {
    if upgraded == Some(true) {
        next is Done && action == Action::Respond(Response::HomeRedirect)
    } else {
        fails(next, action, Status::InternalServerError)
    }
}

/// The gateway: the fixed public key, the lobby, and the two halves of
/// the OAuth2 client.
pub struct App {
    /// Checks the signature of webhook requests.
    verifier: Verifier,
    /// Controls for the lobby.
    lobby: Lobby,
    /// Redirects requests to the OAuth consent page.
    redirector: Redirect,
    /// Exchanges authorization codes for token responses.
    exchanger: CodeExchanger,
}

/// One step of answering a request: from `stage` and `event` to the next
/// stage and the action to take. Only the handling of an interaction
/// touches the registered waiters.
pub open spec fn responds(
    before: App,
    stage: Stage,
    event: Event,
    next: Stage,
    action: Action,
    after: App,
) -> bool {
    match (stage, event) {
        (Stage::Start, Event::Arrived(request)) => after.registered() == before.registered()
            && on_arrival(request, next, action),
        (Stage::WebhookBody { signature, timestamp }, Event::Body(body)) => after.registered()
            == before.registered() && on_body(
            before.key(),
            signature@,
            timestamp@,
            body,
            next,
            action,
        ),
        (Stage::WebhookParse, Event::Parsed(parsed)) => on_parsed(
            parsed,
            before.registered(),
            after.registered(),
            next,
            action,
        ),
        (Stage::WebhookEncode, Event::Encoded(encoded)) => after.registered()
            == before.registered() && on_encoded(encoded, next, action),
        (Stage::SubmitSession, Event::Session(lookup)) => after.registered()
            == before.registered() && on_submit_session(lookup, next, action),
        (Stage::SubmitStore, Event::Stored(stored)) => after.registered() == before.registered()
            && on_stored(stored, next, action),
        (Stage::LoginNonce, Event::Nonce(nonce)) => after.registered() == before.registered()
            && next == (Stage::LoginCreate { nonce }) && action == (Action::CreateSession {
            nonce,
        }),
        (Stage::LoginCreate { nonce }, Event::Created(creation)) => after.registered()
            == before.registered() && on_created(
            before.consent_prefix(),
            nonce,
            creation,
            next,
            action,
        ),
        (Stage::CallbackSession { id, query }, Event::Session(lookup)) => after.registered()
            == before.registered() && on_callback_session(
            before.code_exchanger(),
            id,
            query,
            lookup,
            next,
            action,
        ),
        (Stage::CallbackExchange { id }, Event::Tokens(tokens)) => after.registered()
            == before.registered() && on_tokens(id, tokens, next, action),
        (Stage::CallbackIdentity { id, tokens }, Event::Identity(identity)) => after.registered()
            == before.registered() && on_identity(id, tokens, identity, next, action),
        (Stage::CallbackUpgrade, Event::Upgraded(upgraded)) => after.registered()
            == before.registered() && on_upgraded(upgraded, next, action),
        _ => after.registered() == before.registered() && fails(
            next,
            action,
            Status::InternalServerError,
        ),
    }
}

impl App {
    /// The public key that webhook requests are checked against.
    pub closed spec fn key(&self) -> Seq<u8> {
        self.verifier.key()
    }

    /// The interactions that have a task waiting for their follow-up.
    pub closed spec fn registered(&self) -> Set<u64> {
        self.lobby.registered()
    }

    /// The application that the gateway serves.
    pub closed spec fn application(&self) -> u64 {
        self.lobby.application()
    }

    /// The address of the consent page, up to the value of `state`.
    pub closed spec fn consent_prefix(&self) -> Seq<u8> {
        self.redirector.prefix()
    }

    /// The exchanger that writes the token requests.
    pub closed spec fn code_exchanger(&self) -> CodeExchanger {
        self.exchanger
    }

    /// What a step leaves as it was: the application, the key and the
    /// OAuth2 client.
    pub open spec fn same_setup(&self, other: &App) -> bool {
        &&& self.application() == other.application()
        &&& self.key() == other.key()
        &&& self.consent_prefix() == other.consent_prefix()
        &&& self.code_exchanger() == other.code_exchanger()
    }

    /// A gateway for the application `app_id`, which checks webhook
    /// requests against `pub_key` and logs users in as the OAuth2 client
    /// `client_id`.
    pub fn new(
        app_id: u64,
        pub_key: Vec<u8>,
        client_id: &[u8],
        client_secret: &[u8],
        redirect_uri: &[u8],
    ) -> (out: App)
        ensures
            out.application() == app_id,
            out.key() == pub_key@,
            out.registered() == Set::<u64>::empty(),
            out.consent_prefix() == crate::auth::consent_prefix(client_id@, redirect_uri@),
            forall|code: Seq<u8>| #[trigger]
                out.code_exchanger().form(code) == crate::auth::token_form(
                    client_id@,
                    client_secret@,
                    redirect_uri@,
                    code,
                ),
    {
        App {
            verifier: Verifier::new(pub_key),
            lobby: Lobby::new(app_id),
            exchanger: CodeExchanger::new(client_id, client_secret, redirect_uri),
            redirector: Redirect::new(client_id, redirect_uri),
        }
    }

    /// The application that the gateway serves.
    pub fn app_id(&self) -> (out: u64)
        ensures
            out == self.application(),
    {
        self.lobby.app()
    }

    /// Registers a task that waits for the follow-up of `interaction`,
    /// for the logic that starts quizzes. An earlier registration of the
    /// same interaction is replaced.
    pub fn register(&mut self, interaction: u64) -> (receiver: Receiver<(u64, usize)>)
        ensures
            final(self).registered() == old(self).registered().insert(interaction),
            final(self).same_setup(old(self)),
    {
        self.lobby.register(interaction)
    }

    /// Ends the wait for the follow-up of `interaction` without an event,
    /// for the timeouts that bound a quiz.
    pub fn expire(&mut self, interaction: u64) -> (found: bool)
        ensures
            found == old(self).registered().contains(interaction),
            final(self).registered() == old(self).registered().remove(interaction),
            final(self).same_setup(old(self)),
    {
        self.lobby.expire(interaction)
    }

    /// Takes one step in answering a request.
    pub fn try_respond(&mut self, stage: Stage, event: Event) -> (out: (Stage, Action))
        ensures
            responds(*old(self), stage, event, out.0, out.1, *final(self)),
            final(self).same_setup(old(self)),
    {
        match (stage, event) {
            (Stage::Start, Event::Arrived(request)) => App::arrival(request),
            (Stage::WebhookBody { signature, timestamp }, Event::Body(body)) => self.body(
                signature,
                timestamp,
                body,
            ),
            (Stage::WebhookParse, Event::Parsed(parsed)) => self.parsed(parsed),
            (Stage::WebhookEncode, Event::Encoded(encoded)) => match encoded {
                None => App::failure(Status::InternalServerError),
                Some(body) => (Stage::Done, Action::Respond(Response::Json { body })),
            },
            (Stage::SubmitSession, Event::Session(lookup)) => match lookup {
                Lookup::Failed => App::failure(Status::InternalServerError),
                Lookup::Missing => App::failure(Status::Unauthorized),
                Lookup::Found(session) => match session.as_user() {
                    None => App::failure(Status::Forbidden),
                    Some(user) => (Stage::SubmitStore, Action::Store { user }),
                },
            },
            (Stage::SubmitStore, Event::Stored(stored)) => match stored {
                None => App::failure(Status::InternalServerError),
                Some(id) => (Stage::Done, Action::Respond(Response::Created { id })),
            },
            (Stage::LoginNonce, Event::Nonce(nonce)) => (
                Stage::LoginCreate { nonce },
                Action::CreateSession { nonce },
            ),
            (Stage::LoginCreate { nonce }, Event::Created(creation)) => self.created(
                nonce,
                creation,
            ),
            (Stage::CallbackSession { id, query }, Event::Session(lookup)) => self.callback(
                id,
                query,
                lookup,
            ),
            (Stage::CallbackExchange { id }, Event::Tokens(tokens)) => match tokens {
                None => App::failure(Status::InternalServerError),
                Some(tokens) => {
                    let access = tokens.access.clone();
                    (Stage::CallbackIdentity { id, tokens }, Action::Identify { access })
                },
            },
            (Stage::CallbackIdentity { id, tokens }, Event::Identity(identity)) => match identity {
                None => App::failure(Status::InternalServerError),
                Some(user) => (
                    Stage::CallbackUpgrade,
                    Action::Upgrade {
                        id,
                        user,
                        access: tokens.access,
                        refresh: tokens.refresh,
                        expires: tokens.expires,
                    },
                ),
            },
            (Stage::CallbackUpgrade, Event::Upgraded(upgraded)) => match upgraded {
                Some(true) => (Stage::Done, Action::Respond(Response::HomeRedirect)),
                _ => App::failure(Status::InternalServerError),
            },
            _ => App::failure(Status::InternalServerError),
        }
    }

    fn failure(status: Status) -> (out: (Stage, Action))
        ensures
            fails(out.0, out.1, status),
    {
        (Stage::Done, Action::Fail(status))
    }

    fn arrival(request: Request) -> (out: (Stage, Action))
        ensures
            on_arrival(request, out.0, out.1),
    {
        let found = match route(request.method, request.path.as_slice()) {
            Err(status) => {
                return App::failure(status);
            },
            Ok(found) => found,
        };
        match found {
            Route::Webhook => {
                let (text, time) = match (request.signature, request.timestamp) {
                    (Some(text), Some(time)) => (text, time),
                    _ => {
                        return App::failure(Status::BadRequest);
                    },
                };
                match decode(text.as_slice()) {
                    None => App::failure(Status::BadRequest),
                    Some(signature) => (
                        Stage::WebhookBody { signature, timestamp: time },
                        Action::ReadBody,
                    ),
                }
            },
            Route::Submit => {
                match extract_session(App::header(&request.cookie)) {
                    Err(status) => App::failure(status),
                    Ok(id) => (Stage::SubmitSession, Action::LoadSession(id)),
                }
            },
            Route::Login => (Stage::LoginNonce, Action::DrawNonce),
            Route::Callback => {
                match extract_session(App::header(&request.cookie)) {
                    Err(status) => App::failure(status),
                    Ok(id) => (
                        Stage::CallbackSession { id, query: request.query },
                        Action::LoadSession(id),
                    ),
                }
            },
        }
    }

    fn header(value: &Option<Vec<u8>>) -> (out: Option<&[u8]>)
        ensures
            out is Some <==> value is Some,
            out matches Some(bytes) ==> bytes_of(*value) == Some(bytes@),
    {
        match value {
            Some(bytes) => Some(bytes.as_slice()),
            None => None,
        }
    }

    fn body(&self, signature: Vec<u8>, timestamp: Vec<u8>, body: Option<Vec<u8>>) -> (out: (
        Stage,
        Action,
    ))
        ensures
            on_body(self.key(), signature@, timestamp@, body, out.0, out.1),
    {
        match body {
            None => App::failure(Status::InternalServerError),
            Some(payload) => {
                if self.verifier.accepts(
                    payload.as_slice(),
                    timestamp.as_slice(),
                    signature.as_slice(),
                ) {
                    (Stage::WebhookParse, Action::Parse)
                } else {
                    App::failure(Status::Unauthorized)
                }
            },
        }
    }

    fn parsed(&mut self, parsed: Option<Interaction>) -> (out: (Stage, Action))
        ensures
            on_parsed(parsed, old(self).registered(), final(self).registered(), out.0, out.1),
            final(self).same_setup(old(self)),
    {
        match parsed {
            None => App::failure(Status::BadRequest),
            Some(interaction) => match self.lobby.on_interaction(interaction) {
                Handling::Reply(reply) => (Stage::WebhookEncode, Action::Encode(reply)),
                Handling::Create => (Stage::Done, Action::StartQuiz),
            },
        }
    }

    fn created(&self, nonce: u64, creation: Creation) -> (out: (Stage, Action))
        ensures
            on_created(self.consent_prefix(), nonce, creation, out.0, out.1),
    {
        match creation {
            Creation::Failed => App::failure(Status::InternalServerError),
            Creation::AlreadyExists => App::failure(Status::Forbidden),
            Creation::Created(id) => {
                let state = login_state(id, nonce);
                let location = self.redirector.generate_consent_page_uri(state.as_slice());
                let cookie = session_cookie(id);
                (Stage::Done, Action::Respond(Response::LoginRedirect { location, cookie }))
            },
        }
    }

    fn callback(&self, id: ObjectId, query: Option<Vec<u8>>, lookup: Lookup) -> (out: (
        Stage,
        Action,
    ))
        ensures
            on_callback_session(self.code_exchanger(), id, query, lookup, out.0, out.1),
    {
        let session = match lookup {
            Lookup::Failed => {
                return App::failure(Status::InternalServerError);
            },
            Lookup::Missing => {
                return App::failure(Status::Unauthorized);
            },
            Lookup::Found(session) => session,
        };
        let nonce = match session.nonce() {
            None => {
                return App::failure(Status::Forbidden);
            },
            Some(nonce) => nonce,
        };
        let query = match query {
            None => {
                return App::failure(Status::BadRequest);
            },
            Some(query) => query,
        };
        match self.exchanger.generate_token_request(query.as_slice()) {
            None => App::failure(Status::BadRequest),
            Some((form, state)) => {
                if callback_state_matches(id, nonce, state) {
                    (Stage::CallbackExchange { id }, Action::Exchange { form })
                } else {
                    App::failure(Status::BadRequest)
                }
            },
        }
    }
}

/// The next stage is `Done` exactly when the action ends the request:
/// a response, a failure, or the hand-over to the logic that starts a
/// quiz.
pub proof fn lemma_answer_ends_request(
    before: App,
    stage: Stage,
    event: Event,
    next: Stage,
    action: Action,
    after: App,
)
    requires
        responds(before, stage, event, next, action, after),
    ensures
        next is Done <==> action is Respond || action is Fail || action is StartQuiz,
{
}

/// A failure goes out with a status of 400 or above, a response with one
/// below 400.
pub proof fn lemma_failures_are_failures(
    before: App,
    stage: Stage,
    event: Event,
    next: Stage,
    action: Action,
    after: App,
)
    requires
        responds(before, stage, event, next, action, after),
    ensures
        action matches Action::Fail(status) ==> status.number() >= 400,
        action matches Action::Respond(response) ==> response.spec_status().number() < 400,
{
}

/// The token endpoint is asked only at a callback whose session is
/// pending and whose `state` stands for the binding value of that
/// session and its nonce. Any other `state` ends the request.
pub proof fn lemma_exchange_needs_matching_state(
    before: App,
    stage: Stage,
    event: Event,
    next: Stage,
    action: Action,
    after: App,
)
    requires
        responds(before, stage, event, next, action, after),
        action is Exchange,
    ensures
        ({
            &&& stage matches Stage::CallbackSession { id, query }
            &&& event matches Event::Session(Lookup::Found(Session::Pending { nonce }))
            &&& query matches Some(text)
            &&& query_state(text@) matches Some(state)
            &&& state_matches(binding(id@, nonce), state)
            &&& next == (Stage::CallbackExchange { id })
        }),
{
}

/// The session store is asked to upgrade only the session that the
/// callback named, with the tokens that were exchanged for its code, and
/// only after the owner of the tokens is known.
pub proof fn lemma_upgrade_follows_identity(
    before: App,
    stage: Stage,
    event: Event,
    next: Stage,
    action: Action,
    after: App,
)
    requires
        responds(before, stage, event, next, action, after),
        action is Upgrade,
    ensures
        ({
            &&& stage matches Stage::CallbackIdentity { id, tokens }
            &&& event matches Event::Identity(Some(user))
            &&& action == (Action::Upgrade {
                id,
                user,
                access: tokens.access,
                refresh: tokens.refresh,
                expires: tokens.expires,
            })
        }),
{
}

/// A submission is stored only for a session that is authenticated, and
/// only under the identity that the session is bound to.
pub proof fn lemma_store_needs_authenticated(
    before: App,
    stage: Stage,
    event: Event,
    next: Stage,
    action: Action,
    after: App,
)
    requires
        responds(before, stage, event, next, action, after),
        action is Store,
    ensures
        ({
            &&& stage is SubmitSession
            &&& event matches Event::Session(Lookup::Found(Session::Authenticated { external_id, .. }))
            &&& action == (Action::Store { user: external_id })
        }),
{
}

/// A webhook's body is parsed only when its signature verifies for the
/// timestamp and the body that were received.
pub proof fn lemma_parse_needs_signature(
    before: App,
    stage: Stage,
    event: Event,
    next: Stage,
    action: Action,
    after: App,
)
    requires
        responds(before, stage, event, next, action, after),
        action is Parse,
    ensures
        ({
            &&& stage matches Stage::WebhookBody { signature, timestamp }
            &&& event matches Event::Body(Some(payload))
            &&& authentic(before.key(), payload@, timestamp@, signature@)
        }),
{
}

/// A callback that brings back the `state` of the login, for a session
/// that is still pending with the nonce of that login, goes on to the
/// token exchange with the code it carries.
pub proof fn lemma_login_state_passes_callback(
    exchanger: CodeExchanger,
    id: ObjectId,
    nonce: u64,
    query: Vec<u8>,
    next: Stage,
    action: Action,
)
    requires
        query_code(query@) is Some,
        query_state(query@) == Some(state_text(binding(id@, nonce))),
        on_callback_session(
            exchanger,
            id,
            Some(query),
            Lookup::Found(Session::Pending { nonce }),
            next,
            action,
        ),
    ensures
        next == (Stage::CallbackExchange { id }),
        action matches Action::Exchange { form } && form@ == exchanger.form(
            query_code(query@).unwrap(),
        ),
{
    crate::binding::lemma_unchanged_session_accepted(id, nonce);
}

} // verus!
