//! The authentication step: exchanging a credential pair for an access token.

use vstd::prelude::*;
use vstd::string::StringExecFns;

verus! {

/// Identifier of this application towards the authentication service.
pub const CLIENT_ID: &'static str = "1bpd19lcr33qvg5cr3oi79rdap";

/// Identifier of the user pool that credentials are checked against.
pub const POOL_ID: &'static str = "us-west-2_iLmIggsiy";

/// Number of seconds for which a token issued by [`authenticate`] stays valid.
pub const TOKEN_LIFETIME: i64 = 3600;

/// What a successful authentication yields: a bearer token and its time to live.
#[derive(Debug)]
pub struct AuthOutput {
    access_token: String,
    expires_in: i64,
}

/// Mathematical content of an [`AuthOutput`].
pub struct AuthOutputView {
    pub access_token: Seq<char>,
    pub expires_in: int,
}

impl View for AuthOutput {
    type V = AuthOutputView;

    closed spec fn view(&self) -> AuthOutputView {
        AuthOutputView { access_token: self.access_token@, expires_in: self.expires_in as int }
    }
}

impl AuthOutput {
    /// Packs a token and its time to live, in seconds.
    pub fn new(access_token: String, expires_in: i64) -> (out: AuthOutput)
        ensures
            out@.access_token == access_token@,
            out@.expires_in == expires_in,
    {
        AuthOutput { access_token, expires_in }
    }

    /// The bearer token.
    pub fn access_token(&self) -> (token: &str)
        ensures
            token@ == self@.access_token,
    {
        self.access_token.as_str()
    }

    /// Seconds from the moment of issue until the token expires. May be zero or
    /// negative, in which case the token is expired from the start.
    pub fn expires_in(&self) -> (seconds: i64)
        ensures
            seconds == self@.expires_in,
    {
        self.expires_in
    }
}

/// The token that the stand-in authentication issues: the four inputs joined by colons.
pub open spec fn issued_token(
    client_id: Seq<char>,
    pool_id: Seq<char>,
    api_key: Seq<char>,
    password: Seq<char>,
) -> Seq<char> {
    client_id + seq![':'] + pool_id + seq![':'] + api_key + seq![':'] + password
}

/// Stand-in for the authentication service. It accepts every credential pair and
/// issues a token that spells out its inputs, valid for [`TOKEN_LIFETIME`] seconds.
pub fn authenticate(client_id: &str, pool_id: &str, api_key: &str, password: &str) -> (res: Result<
    AuthOutput,
    String,
>)
    ensures
        res is Ok,
        res->Ok_0@.access_token == issued_token(client_id@, pool_id@, api_key@, password@),
        res->Ok_0@.expires_in == TOKEN_LIFETIME,
{
    proof {
        reveal_strlit(":");
    }
    let token = String::from_str(client_id).concat(":").concat(pool_id).concat(":").concat(
        api_key,
    ).concat(":").concat(password);
    assert(":"@ =~= seq![':']);
    Ok(AuthOutput::new(token, TOKEN_LIFETIME))
}

} // verus!
