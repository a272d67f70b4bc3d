//! The cache of clients, keyed by API key, and the refresh that fills it.
//!
//! A request for a client takes two steps. [`ClientCache::lookup`] decides whether
//! the cached client can be handed out. If it cannot, the caller asks the
//! authentication service and hands its answer to [`ClientCache::complete_refresh`],
//! which builds the new client and stores it. [`refresh_client`] takes both steps
//! with the stand-in authentication of this crate. Every step takes the present
//! instant from its caller, who reads the clock.
//!
//! The cache is an ordinary value. Exclusive access to it (`&mut`) is what keeps two
//! refreshes from running at once: a caller that shares one cache among tasks holds
//! a lock from the lookup to the end of the refresh.
//!
//! What the two steps do together is [`answered`]; the laws at the end of this file
//! are stated over it.

use crate::auth::{authenticate, issued_token, AuthOutput, AuthOutputView};
use crate::auth::{CLIENT_ID, POOL_ID, TOKEN_LIFETIME};
use crate::client::{build_client, build_error_text, share_client};
use crate::client::{carries, client_default_headers};
use crate::header::{auth_headers, bearer_field, build_headers, encodable, header_error_text};
use crate::header::{key_field, lemma_auth_headers_are_few, API_KEY, AUTHORIZATION};
use reqwest::Client;
use vstd::hash_map::StringHashMap;
use vstd::prelude::*;
use vstd::string::StringExecFns;

verus! {

/// A client together with the instant from which it must no longer be handed out.
/// The instant is the sum of two `i64` and is held in a type that every such sum
/// fits.
#[derive(Debug)]
pub struct ExpiringClient {
    client: Client,
    expiration_time: i128,
}

/// Mathematical content of an [`ExpiringClient`].
pub struct EntryView {
    pub client: Client,
    pub expiration_time: int,
}

impl View for ExpiringClient {
    type V = EntryView;

    closed spec fn view(&self) -> EntryView {
        EntryView { client: self.client, expiration_time: self.expiration_time as int }
    }
}

impl ExpiringClient {
    /// An entry for a client whose token was issued at `now` and lives for `ttl`
    /// seconds. A `ttl` of zero or less gives an entry that is never valid.
    pub fn new(client: Client, now: i64, ttl: i64) -> (entry: ExpiringClient)
        ensures
            entry@.client == client,
            entry@.expiration_time == now + ttl,
    {
        ExpiringClient { client, expiration_time: now as i128 + ttl as i128 }
    }

    /// Whether the entry may still be handed out at `now`.
    pub fn is_valid(&self, now: i64) -> (valid: bool)
        ensures
            valid == (now < self@.expiration_time),
    {
        (now as i128) < self.expiration_time
    }

    /// The instant, in seconds since the epoch, at which the entry expires.
    pub fn expiration_time(&self) -> (instant: i128)
        ensures
            instant == self@.expiration_time,
    {
        self.expiration_time
    }

    /// Another handle to the entry's client.
    pub fn client(&self) -> (client: Client)
        ensures
            client == self@.client,
    {
        share_client(&self.client)
    }
}

/// Why a refresh did not produce a client. Each variant carries the text of the
/// failure that caused it.
#[derive(Debug)]
pub enum RefreshError {
    /// The authentication service turned the credentials down, or could not be reached.
    AuthenticationFailed(String),
    /// The token or the key holds a byte that no header value may hold.
    InvalidCredentialEncoding(String),
    /// No client could be built around the headers.
    ClientConstructionFailed(String),
}

impl RefreshError {
    /// The text of the error: what went wrong, a colon, and the cause.
    pub fn message(&self) -> (text: String)
        ensures
            self is AuthenticationFailed ==> text@ == "Authentication failed: "@
                + self->AuthenticationFailed_0@,
            self is InvalidCredentialEncoding ==> text@ == "Invalid header value: "@
                + self->InvalidCredentialEncoding_0@,
            self is ClientConstructionFailed ==> text@ == "Failed to build client: "@
                + self->ClientConstructionFailed_0@,
    {
        match self {
            RefreshError::AuthenticationFailed(cause) => String::from_str(
                "Authentication failed: ",
            ).concat(cause.as_str()),
            RefreshError::InvalidCredentialEncoding(cause) => String::from_str(
                "Invalid header value: ",
            ).concat(cause.as_str()),
            RefreshError::ClientConstructionFailed(cause) => String::from_str(
                "Failed to build client: ",
            ).concat(cause.as_str()),
        }
    }
}

/// The client that a cache with content `cache` hands out for `key` at `now`: the
/// one stored under `key`, if there is one and it has not expired.
pub open spec fn fresh_client(cache: Map<Seq<char>, EntryView>, key: Seq<char>, now: int) -> Option<
    Client,
> {
    if cache.contains_key(key) && now < cache[key].expiration_time {
        Some(cache[key].client)
    } else {
        None
    }
}

/// The content of a cache after `client`, whose token was issued at `now` and lives
/// for `ttl` seconds, has been stored under `key`.
pub open spec fn refreshed(
    cache: Map<Seq<char>, EntryView>,
    key: Seq<char>,
    client: Client,
    now: int,
    ttl: int,
) -> Map<Seq<char>, EntryView> {
    cache.insert(key, EntryView { client, expiration_time: now + ttl })
}

/// What the last step of a refresh does, given whether a client could be built.
/// A failure leaves the cache as it was; a client is stored and handed out.
pub open spec fn installed(
    before: Map<Seq<char>, EntryView>,
    after: Map<Seq<char>, EntryView>,
    key: Seq<char>,
    now: int,
    ttl: int,
    built: Result<Client, reqwest::Error>,
    res: Result<Client, RefreshError>,
) -> bool {
    match built {
        Ok(client) => res is Ok && res->Ok_0 == client && after == refreshed(
            before,
            key,
            client,
            now,
            ttl,
        ),
        Err(_) => res is Err && res->Err_0 is ClientConstructionFailed && after == before,
    }
}

/// The answer of the authentication service, by its content: the token and its time
/// to live, or the text of the failure.
pub open spec fn answer(auth: Result<AuthOutput, String>) -> Result<AuthOutputView, Seq<char>> {
    match auth {
        Ok(out) => Ok(out@),
        Err(cause) => Err(cause@),
    }
}

/// What a refresh does once the authentication service has answered with `auth`.
///
/// A failed authentication is handed on with its text and the cache stays as it
/// was. So it does when the token or the key cannot be written as a header value,
/// and when no client can be built. Otherwise a client whose default headers carry
/// the bearer token and the key is stored under `key`, to expire `expires_in`
/// seconds after `now`, and handed out.
pub open spec fn completed(
    before: Map<Seq<char>, EntryView>,
    after: Map<Seq<char>, EntryView>,
    key: Seq<char>,
    now: int,
    auth: Result<AuthOutputView, Seq<char>>,
    res: Result<Client, RefreshError>,
) -> bool {
    match auth {
        Err(cause) => {
            &&& res is Err
            &&& res->Err_0 is AuthenticationFailed
            &&& res->Err_0->AuthenticationFailed_0@ == cause
            &&& after == before
        },
        Ok(out) => if encodable(out.access_token, key) {
            ||| res is Err && res->Err_0 is ClientConstructionFailed && after == before
            ||| {
                &&& res is Ok
                &&& carries(
                    client_default_headers(res->Ok_0),
                    auth_headers(out.access_token, key),
                )
                &&& after == refreshed(before, key, res->Ok_0, now, out.expires_in)
            }
        } else {
            res is Err && res->Err_0 is InvalidCredentialEncoding && after == before
        },
    }
}

/// The answer of the stand-in authentication to the credentials `key` and `secret`.
pub open spec fn issued(key: Seq<char>, secret: Seq<char>) -> Result<AuthOutputView, Seq<char>> {
    Ok(
        AuthOutputView {
            access_token: issued_token(CLIENT_ID@, POOL_ID@, key, secret),
            expires_in: TOKEN_LIFETIME as int,
        },
    )
}

/// What a request for the client of `key` at `now` does, where `auth` is what the
/// authentication service answers if it is asked.
///
/// A client that is cached and has not expired is handed out and the cache stays as
/// it was; the service is not asked. Otherwise it is asked once, and the refresh
/// completes on its answer.
pub open spec fn answered(
    before: Map<Seq<char>, EntryView>,
    after: Map<Seq<char>, EntryView>,
    key: Seq<char>,
    now: int,
    auth: Result<AuthOutputView, Seq<char>>,
    res: Result<Client, RefreshError>,
) -> bool {
    match fresh_client(before, key, now) {
        Some(client) => res is Ok && res->Ok_0 == client && after == before,
        None => completed(before, after, key, now, auth, res),
    }
}

/// What a request for the client of `key` at `now` does when the stand-in
/// authentication answers.
pub open spec fn requested(
    before: Map<Seq<char>, EntryView>,
    after: Map<Seq<char>, EntryView>,
    key: Seq<char>,
    secret: Seq<char>,
    now: int,
    res: Result<Client, RefreshError>,
) -> bool {
    answered(before, after, key, now, issued(key, secret), res)
}

/// Clients by API key, each with its expiration time.
pub struct ClientCache {
    entries: StringHashMap<ExpiringClient>,
}

impl View for ClientCache {
    type V = Map<Seq<char>, EntryView>;

    closed spec fn view(&self) -> Map<Seq<char>, EntryView> {
        self.entries@.map_values(|entry: ExpiringClient| entry@)
    }
}

impl ClientCache {
    /// A cache that holds nothing.
    pub fn new() -> (cache: ClientCache)
        ensures
            cache@ == Map::<Seq<char>, EntryView>::empty(),
    {
        let cache = ClientCache { entries: StringHashMap::new() };
        assert(cache@ =~= Map::<Seq<char>, EntryView>::empty());
        cache
    }

    /// The expiration time of the entry stored under `api_key`, if there is one.
    pub fn expiration_time(&self, api_key: &str) -> (instant: Option<i128>)
        ensures
            instant is Some <==> self@.contains_key(api_key@),
            instant is Some ==> instant->0 == self@[api_key@].expiration_time,
    {
        match self.entries.get(api_key) {
            Some(entry) => Some(entry.expiration_time()),
            None => None,
        }
    }

    /// The client to hand out for `api_key` at `now`: the cached one, unless it has
    /// expired or there is none.
    pub fn lookup(&self, api_key: &str, now: i64) -> (client: Option<Client>)
        ensures
            client == fresh_client(self@, api_key@, now as int),
    {
        match self.entries.get(api_key) {
            Some(entry) => {
                if entry.is_valid(now) {
                    Some(entry.client())
                } else {
                    None
                }
            },
            None => None,
        }
    }

    /// Stores `client` under `api_key`, to expire `ttl` seconds after `now`, in
    /// place of what was stored there.
    pub fn store(&mut self, api_key: &str, client: Client, now: i64, ttl: i64)
        ensures
            final(self)@ == refreshed(old(self)@, api_key@, client, now as int, ttl as int),
    {
        let entry = ExpiringClient::new(client, now, ttl);
        self.entries.insert(String::from_str(api_key), entry);
        assert(self@ =~= refreshed(old(self)@, api_key@, client, now as int, ttl as int));
    }
}

impl ClientCache {
    /// Last step of a refresh: takes what the client factory gave. A client is
    /// stored under `api_key`, to expire `ttl` seconds after `now`, and a handle to
    /// it is returned. A failure is reported and the cache stays as it was.
    pub fn install(
        &mut self,
        api_key: &str,
        now: i64,
        ttl: i64,
        built: Result<Client, reqwest::Error>,
    ) -> (res: Result<Client, RefreshError>)
        ensures
            installed(old(self)@, final(self)@, api_key@, now as int, ttl as int, built, res),
            res is Err ==> final(self)@ == old(self)@,
    {
        match built {
            Ok(client) => {
                let handle = share_client(&client);
                self.store(api_key, client, now, ttl);
                Ok(handle)
            },
            Err(error) => Err(RefreshError::ClientConstructionFailed(build_error_text(&error))),
        }
    }

    /// Completes a refresh for `api_key`, begun at `now`, on the answer `auth` of
    /// the authentication service: builds the headers and the client, and stores it.
    /// Whatever fails, the cache then stays as it was.
    pub fn complete_refresh(
        &mut self,
        api_key: &str,
        now: i64,
        auth: Result<AuthOutput, String>,
    ) -> (res: Result<Client, RefreshError>)
        ensures
            completed(old(self)@, final(self)@, api_key@, now as int, answer(auth), res),
            res is Err ==> final(self)@ == old(self)@,
    {
        let out = match auth {
            Ok(out) => out,
            Err(cause) => {
                return Err(RefreshError::AuthenticationFailed(cause));
            },
        };
        let headers = match build_headers(out.access_token(), api_key) {
            Ok(headers) => headers,
            Err(error) => {
                return Err(RefreshError::InvalidCredentialEncoding(header_error_text(&error)));
            },
        };
        proof {
            lemma_auth_headers_are_few(out@.access_token, api_key@);
        }
        let built = build_client(headers);
        self.install(api_key, now, out.expires_in(), built)
    }
}

/// Hands out the client for `api_key` at the instant `now`: the cached one while it
/// is valid, else one that is built around a token newly issued for `api_key` and
/// `api_secret`, and stored. A failure leaves the cache as it was.
pub fn refresh_client(
    cache: &mut ClientCache,
    now: i64,
    api_key: String,
    api_secret: String,
) -> (res: Result<Client, RefreshError>)
    ensures
        requested(old(cache)@, final(cache)@, api_key@, api_secret@, now as int, res),
        res is Err ==> final(cache)@ == old(cache)@,
{
    if let Some(client) = cache.lookup(api_key.as_str(), now) {
        return Ok(client);
    }
    let auth = authenticate(CLIENT_ID, POOL_ID, api_key.as_str(), api_secret.as_str());
    cache.complete_refresh(api_key.as_str(), now, auth)
}

/// Freshness: once `client` has been stored under `key` at `now` with a lifetime of
/// `ttl` seconds, every request for `key` before `now + ttl` is answered with that
/// client, whatever the authentication service would say, and leaves the cache as
/// it is.
pub proof fn lemma_fresh_entry_is_served(
    cache: Map<Seq<char>, EntryView>,
    key: Seq<char>,
    client: Client,
    now: int,
    ttl: int,
    later: int,
    auth: Result<AuthOutputView, Seq<char>>,
    after: Map<Seq<char>, EntryView>,
    res: Result<Client, RefreshError>,
)
    requires
        later < now + ttl,
        answered(refreshed(cache, key, client, now, ttl), after, key, later, auth, res),
    ensures
        fresh_client(refreshed(cache, key, client, now, ttl), key, later) == Some(client),
        res is Ok,
        res->Ok_0 == client,
        after == refreshed(cache, key, client, now, ttl),
{
}

/// Refresh on expiry: from its expiration time on, the entry under `key` is no
/// longer handed out. A request then goes by the answer of the authentication
/// service: when it ends well, the new client stands in the old one's place and
/// expires a lifetime after the request; when it fails, the cache stays as it was.
pub proof fn lemma_expired_entry_is_replaced(
    cache: Map<Seq<char>, EntryView>,
    key: Seq<char>,
    client: Client,
    now: int,
    ttl: int,
    later: int,
    auth: Result<AuthOutputView, Seq<char>>,
    after: Map<Seq<char>, EntryView>,
    res: Result<Client, RefreshError>,
)
    requires
        later >= now + ttl,
        answered(refreshed(cache, key, client, now, ttl), after, key, later, auth, res),
    ensures
        fresh_client(refreshed(cache, key, client, now, ttl), key, later) is None,
        res is Ok ==> auth is Ok,
        res is Ok ==> after == refreshed(cache, key, res->Ok_0, later, auth->Ok_0.expires_in),
        res is Err ==> after == refreshed(cache, key, client, now, ttl),
{
    let before = refreshed(cache, key, client, now, ttl);
    if res is Ok {
        assert(after == refreshed(before, key, res->Ok_0, later, auth->Ok_0.expires_in));
        assert(after =~= refreshed(cache, key, res->Ok_0, later, auth->Ok_0.expires_in));
    }
}

/// Two requests in a row: when a request for `key` had to authenticate, ended well
/// and got a token that lives for some time, a request for `key` that follows it at
/// the same instant is answered with that very client, and the authentication
/// service is not asked again.
pub proof fn lemma_second_request_is_served(
    before: Map<Seq<char>, EntryView>,
    between: Map<Seq<char>, EntryView>,
    after: Map<Seq<char>, EntryView>,
    key: Seq<char>,
    now: int,
    first_auth: Result<AuthOutputView, Seq<char>>,
    second_auth: Result<AuthOutputView, Seq<char>>,
    first: Result<Client, RefreshError>,
    second: Result<Client, RefreshError>,
)
    requires
        fresh_client(before, key, now) is None,
        answered(before, between, key, now, first_auth, first),
        first is Ok,
        first_auth is Ok ==> first_auth->Ok_0.expires_in > 0,
        answered(between, after, key, now, second_auth, second),
    ensures
        second is Ok,
        second->Ok_0 == first->Ok_0,
        after == between,
{
}

/// Header correctness: the client that a request hands out after it had to
/// authenticate sends the bearer text of the issued token as its `authorization`
/// header, marked as sensitive, and the key as its `x-api-key` header.
pub proof fn lemma_new_client_carries_credentials(
    before: Map<Seq<char>, EntryView>,
    after: Map<Seq<char>, EntryView>,
    key: Seq<char>,
    now: int,
    auth: Result<AuthOutputView, Seq<char>>,
    res: Result<Client, RefreshError>,
)
    requires
        fresh_client(before, key, now) is None,
        answered(before, after, key, now, auth, res),
        res is Ok,
    ensures
        auth is Ok,
        client_default_headers(res->Ok_0).contains_key(AUTHORIZATION@),
        client_default_headers(res->Ok_0)[AUTHORIZATION@] == seq![
            bearer_field(auth->Ok_0.access_token),
        ],
        client_default_headers(res->Ok_0).contains_key(API_KEY@),
        client_default_headers(res->Ok_0)[API_KEY@] == seq![key_field(key)],
{
    reveal_strlit("authorization");
    reveal_strlit("x-api-key");
    let wanted = auth_headers(auth->Ok_0.access_token, key);
    assert(AUTHORIZATION@ != API_KEY@) by {
        assert(AUTHORIZATION@[0] == 'a');
        assert(API_KEY@[0] == 'x');
    }
    assert(wanted.contains_key(AUTHORIZATION@));
    assert(wanted.contains_key(API_KEY@));
}

/// Isolation of failure: when the authentication fails, the request fails with the
/// service's words and the cache stays as it was. So every key keeps the client it
/// had, valid for as long as it was.
pub proof fn lemma_failed_authentication_keeps_entries(
    before: Map<Seq<char>, EntryView>,
    after: Map<Seq<char>, EntryView>,
    key: Seq<char>,
    now: int,
    cause: Seq<char>,
    res: Result<Client, RefreshError>,
    other: Seq<char>,
    later: int,
)
    requires
        fresh_client(before, key, now) is None,
        answered(before, after, key, now, Err(cause), res),
    ensures
        res is Err,
        res->Err_0 is AuthenticationFailed,
        res->Err_0->AuthenticationFailed_0@ == cause,
        after == before,
        fresh_client(after, other, later) == fresh_client(before, other, later),
{
}

/// A request that fails, for whatever reason, leaves the cache as it was.
pub proof fn lemma_failure_keeps_entries(
    before: Map<Seq<char>, EntryView>,
    after: Map<Seq<char>, EntryView>,
    key: Seq<char>,
    now: int,
    auth: Result<AuthOutputView, Seq<char>>,
    res: Result<Client, RefreshError>,
)
    requires
        answered(before, after, key, now, auth, res),
        res is Err,
    ensures
        after == before,
{
}

/// A request for one key leaves the entries of all other keys as they were.
pub proof fn lemma_other_keys_untouched(
    before: Map<Seq<char>, EntryView>,
    after: Map<Seq<char>, EntryView>,
    key: Seq<char>,
    now: int,
    auth: Result<AuthOutputView, Seq<char>>,
    res: Result<Client, RefreshError>,
    other: Seq<char>,
    later: int,
)
    requires
        answered(before, after, key, now, auth, res),
        other != key,
    ensures
        fresh_client(after, other, later) == fresh_client(before, other, later),
{
}

} // verus!
