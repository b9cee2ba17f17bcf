//! The outbound half of the OAuth2 flow: the address of the consent page
//! that a login is redirected to, and the token request that a callback
//! leads to.

use crate::fields::{field, find_field};
use vstd::prelude::*;
use vstd::string::StringSliceAdditionalSpecFns;

verus! {

/// The consent page, up to the client identifier.
pub const CONSENT_PAGE: &'static str =
    "https://discord.com/api/oauth2/authorize?response_type=code&scope=identify&client_id=";

/// Introduces the redirect address in a list of parameters.
pub const REDIRECT_PARAMETER: &'static str = "&redirect_uri=";

/// Introduces the `state` in the address of the consent page.
pub const STATE_PARAMETER: &'static str = "&state=";

/// Where authorization codes are exchanged for tokens.
pub const TOKEN_ENDPOINT: &'static str = "https://discord.com/api/oauth2/token";

/// The content type of the token request.
pub const FORM_CONTENT_TYPE: &'static str = "application/x-www-form-urlencoded";

/// The token request, up to the client identifier.
pub const TOKEN_FORM: &'static str = "grant_type=authorization_code&client_id=";

/// Introduces the client secret in the token request.
pub const SECRET_PARAMETER: &'static str = "&client_secret=";

/// Introduces the authorization code in the token request.
pub const CODE_PARAMETER: &'static str = "&code=";

/// The name under which the callback's query carries the authorization
/// code.
pub const CODE_NAME: &'static str = "code";

/// The name under which the callback's query carries the `state`.
pub const STATE_NAME: &'static str = "state";

/// The byte that separates the pieces of a query.
pub const QUERY_SEPARATOR: u8 = 0x26;

/// The address of the consent page for a client, up to the value of
/// `state`.
pub open spec fn consent_prefix(client_id: Seq<u8>, redirect_uri: Seq<u8>) -> Seq<u8> {
    CONSENT_PAGE.spec_bytes() + client_id + REDIRECT_PARAMETER.spec_bytes() + redirect_uri
        + STATE_PARAMETER.spec_bytes()
}

/// The body of the request that exchanges `code` for tokens.
pub open spec fn token_form(
    client_id: Seq<u8>,
    client_secret: Seq<u8>,
    redirect_uri: Seq<u8>,
    code: Seq<u8>,
) -> Seq<u8> {
    TOKEN_FORM.spec_bytes() + client_id + SECRET_PARAMETER.spec_bytes() + client_secret
        + REDIRECT_PARAMETER.spec_bytes() + redirect_uri + CODE_PARAMETER.spec_bytes() + code
}

/// The authorization code in a callback's query.
pub open spec fn query_code(query: Seq<u8>) -> Option<Seq<u8>> {
    field(query, QUERY_SEPARATOR, false, CODE_NAME.spec_bytes())
}

/// The `state` in a callback's query.
pub open spec fn query_state(query: Seq<u8>) -> Option<Seq<u8>> {
    field(query, QUERY_SEPARATOR, false, STATE_NAME.spec_bytes())
}

/// Redirects logins to the consent page.
pub struct Redirect {
    prefix: Vec<u8>,
}

impl Redirect {
    /// The address of the consent page, up to the value of `state`.
    pub closed spec fn prefix(&self) -> Seq<u8> {
        self.prefix@
    }

    /// A redirector for the client `client_id`, whose consent page sends
    /// the user back to `redirect_uri`. Both are written into the
    /// address as they are.
    pub fn new(client_id: &[u8], redirect_uri: &[u8]) -> (out: Redirect)
        ensures
            out.prefix() == consent_prefix(client_id@, redirect_uri@),
    {
        let mut prefix: Vec<u8> = Vec::new();
        prefix.extend_from_slice(CONSENT_PAGE.as_bytes());
        prefix.extend_from_slice(client_id);
        prefix.extend_from_slice(REDIRECT_PARAMETER.as_bytes());
        prefix.extend_from_slice(redirect_uri);
        prefix.extend_from_slice(STATE_PARAMETER.as_bytes());
        assert(prefix@ =~= consent_prefix(client_id@, redirect_uri@));
        Redirect { prefix }
    }

    /// The address of the consent page for a login with `state`.
    pub fn generate_consent_page_uri(&self, state: &[u8]) -> (out: Vec<u8>)
        ensures
            out@ == self.prefix() + state@,
    {
        let mut out: Vec<u8> = Vec::new();
        out.extend_from_slice(self.prefix.as_slice());
        out.extend_from_slice(state);
        assert(out@ =~= self.prefix@ + state@);
        out
    }
}

/// Exchanges authorization codes for tokens.
pub struct CodeExchanger {
    client_id: Vec<u8>,
    client_secret: Vec<u8>,
    redirect_uri: Vec<u8>,
}

impl CodeExchanger {
    /// The body of the token request for `code`.
    pub closed spec fn form(&self, code: Seq<u8>) -> Seq<u8> {
        token_form(self.client_id@, self.client_secret@, self.redirect_uri@, code)
    }

    /// An exchanger for the given client.
    pub fn new(client_id: &[u8], client_secret: &[u8], redirect_uri: &[u8]) -> (out: CodeExchanger)
        ensures
            forall|code: Seq<u8>| #[trigger]
                out.form(code) == token_form(client_id@, client_secret@, redirect_uri@, code),
    {
        let mut id: Vec<u8> = Vec::new();
        id.extend_from_slice(client_id);
        let mut secret: Vec<u8> = Vec::new();
        secret.extend_from_slice(client_secret);
        let mut uri: Vec<u8> = Vec::new();
        uri.extend_from_slice(redirect_uri);
        assert(id@ =~= client_id@ && secret@ =~= client_secret@ && uri@ =~= redirect_uri@);
        CodeExchanger { client_id: id, client_secret: secret, redirect_uri: uri }
    }

    /// Reads the authorization code and the `state` from a callback's
    /// query and writes the body of the token request. `None` when the
    /// query lacks either of the two.
    pub fn generate_token_request<'a>(&self, query: &'a [u8]) -> (out: Option<(Vec<u8>, &'a [u8])>)
        ensures
            out is Some <==> query_code(query@) is Some && query_state(query@) is Some,
            out matches Some((form, state)) ==> {
                &&& query_state(query@) == Some(state@)
                &&& query_code(query@) matches Some(code)
                &&& form@ == self.form(code)
            },
    {
        let code = match find_field(query, QUERY_SEPARATOR, false, CODE_NAME.as_bytes()) {
            Some(code) => code,
            None => {
                return None;
            },
        };
        let state = match find_field(query, QUERY_SEPARATOR, false, STATE_NAME.as_bytes()) {
            Some(state) => state,
            None => {
                return None;
            },
        };
        let mut form: Vec<u8> = Vec::new();
        form.extend_from_slice(TOKEN_FORM.as_bytes());
        form.extend_from_slice(self.client_id.as_slice());
        form.extend_from_slice(SECRET_PARAMETER.as_bytes());
        form.extend_from_slice(self.client_secret.as_slice());
        form.extend_from_slice(REDIRECT_PARAMETER.as_bytes());
        form.extend_from_slice(self.redirect_uri.as_slice());
        form.extend_from_slice(CODE_PARAMETER.as_bytes());
        form.extend_from_slice(code);
        assert(form@ =~= self.form(code@));
        Some((form, state))
    }
}

} // verus!
