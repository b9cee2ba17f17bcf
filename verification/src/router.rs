//! Methods, paths and status codes: which endpoint a request is for, and
//! how a failure is shown to the caller.

use vstd::prelude::*;
use vstd::string::StringSliceAdditionalSpecFns;

verus! {

/// The path of the webhook endpoint.
pub const WEBHOOK_PATH: &'static str = "/discord";

/// The path of the submission endpoint.
pub const SUBMIT_PATH: &'static str = "/quiz";

/// The path of the login endpoint.
pub const LOGIN_PATH: &'static str = "/auth/login";

/// The path of the OAuth callback endpoint.
pub const CALLBACK_PATH: &'static str = "/auth/callback";

/// The method of a request, as far as routing tells methods apart.
#[derive(Clone, Copy, Debug, PartialEq, Eq, Structural)]
pub enum Method {
    Get,
    Post,
    /// Any method but `GET` and `POST`.
    Other,
}

/// The endpoints of the gateway.
#[derive(Clone, Copy, Debug, PartialEq, Eq, Structural)]
pub enum Route {
    /// `POST /discord`: a signed event from the platform.
    Webhook,
    /// `POST /quiz`: a submission by a logged-in user.
    Submit,
    /// `GET /auth/login`: the start of a login.
    Login,
    /// `GET /auth/callback`: the return from the consent page.
    Callback,
}

/// The status of a response.
#[derive(Clone, Copy, Debug, PartialEq, Eq, Structural)]
pub enum Status {
    Success,
    Created,
    Found,
    BadRequest,
    Unauthorized,
    Forbidden,
    NotFound,
    MethodNotAllowed,
    InternalServerError,
    NotImplemented,
}

impl Status {
    /// The number of the status on the wire.
    pub open spec fn number(self) -> u16 {
        match self {
            Status::Success => 200,
            Status::Created => 201,
            Status::Found => 302,
            Status::BadRequest => 400,
            Status::Unauthorized => 401,
            Status::Forbidden => 403,
            Status::NotFound => 404,
            Status::MethodNotAllowed => 405,
            Status::InternalServerError => 500,
            Status::NotImplemented => 501,
        }
    }

    /// The number of the status on the wire.
    pub fn code(&self) -> (out: u16)
        ensures
            out == self.number(),
    {
        match self {
            Status::Success => 200,
            Status::Created => 201,
            Status::Found => 302,
            Status::BadRequest => 400,
            Status::Unauthorized => 401,
            Status::Forbidden => 403,
            Status::NotFound => 404,
            Status::MethodNotAllowed => 405,
            Status::InternalServerError => 500,
            Status::NotImplemented => 501,
        }
    }

    /// Whether the status tells of a failure.
    pub fn is_failure(&self) -> (out: bool)
        ensures
            out == (self.number() >= 400),
    {
        self.code() >= 400
    }
}

/// Whether two byte strings are the same.
pub fn same_bytes(a: &[u8], b: &[u8]) -> (out: bool)
    ensures
        out == (a@ == b@),
{
    if a.len() != b.len() {
        return false;
    }
    let mut i: usize = 0;
    while i < a.len()
        invariant
            i <= a@.len(),
            a@.len() == b@.len(),
            forall|j: int| 0 <= j < i ==> a@[j] == b@[j],
        decreases a@.len() - i,
    {
        if a[i] != b[i] {
            return false;
        }
        i += 1;
    }
    assert(a@ =~= b@);
    true
}

/// Whether `path` is the path of one of the endpoints.
pub open spec fn is_known_path(path: Seq<u8>) -> bool {
    ||| path == WEBHOOK_PATH.spec_bytes()
    ||| path == SUBMIT_PATH.spec_bytes()
    ||| path == LOGIN_PATH.spec_bytes()
    ||| path == CALLBACK_PATH.spec_bytes()
}

/// Where a request goes. The four endpoints come first. Any other
/// request for the path of an endpoint has the wrong method and is
/// `MethodNotAllowed`. On any other path a `GET` is `NotFound`, and
/// what is left is `NotImplemented`.
pub open spec fn routed(method: Method, path: Seq<u8>) -> Result<Route, Status> {
    if method == Method::Post && path == WEBHOOK_PATH.spec_bytes() {
        Ok(Route::Webhook)
    } else if method == Method::Post && path == SUBMIT_PATH.spec_bytes() {
        Ok(Route::Submit)
    } else if method == Method::Get && path == LOGIN_PATH.spec_bytes() {
        Ok(Route::Login)
    } else if method == Method::Get && path == CALLBACK_PATH.spec_bytes() {
        Ok(Route::Callback)
    } else if is_known_path(path) {
        Err(Status::MethodNotAllowed)
    } else if method == Method::Get {
        Err(Status::NotFound)
    } else {
        Err(Status::NotImplemented)
    }
}

/// Finds the endpoint that a request is for.
pub fn route(method: Method, path: &[u8]) -> (out: Result<Route, Status>)
    ensures
        out == routed(method, path@),
{
    let webhook = same_bytes(path, WEBHOOK_PATH.as_bytes());
    let submit = same_bytes(path, SUBMIT_PATH.as_bytes());
    let login = same_bytes(path, LOGIN_PATH.as_bytes());
    let callback = same_bytes(path, CALLBACK_PATH.as_bytes());
    let known = webhook || submit || login || callback;
    match method {
        Method::Post if webhook => Ok(Route::Webhook),
        Method::Post if submit => Ok(Route::Submit),
        Method::Get if login => Ok(Route::Login),
        Method::Get if callback => Ok(Route::Callback),
        _ if known => Err(Status::MethodNotAllowed),
        Method::Get => Err(Status::NotFound),
        _ => Err(Status::NotImplemented),
    }
}

/// No request fails to be routed: each one reaches an endpoint or is
/// turned away with one of three statuses. The path of an endpoint is
/// never answered with `NotFound` or `NotImplemented`, whatever the
/// method. On any other path a `GET` is `NotFound` and every other
/// method is `NotImplemented`.
pub proof fn lemma_routing_total(method: Method, path: Seq<u8>)
    ensures
        routed(method, path) matches Err(status) ==> status == Status::NotFound || status
            == Status::MethodNotAllowed || status == Status::NotImplemented,
        is_known_path(path) <==> routed(method, path) is Ok || routed(method, path) == Err::<
            Route,
            Status,
        >(Status::MethodNotAllowed),
        routed(method, path) == Err::<Route, Status>(Status::NotFound) <==> method == Method::Get
            && !is_known_path(path),
        routed(method, path) == Err::<Route, Status>(Status::NotImplemented) <==> method
            != Method::Get && !is_known_path(path),
{
}

} // verus!
