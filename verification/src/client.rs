//! The HTTP client that the cache hands out.
//!
//! A client is a shared handle: a copy of it uses the same connection pool as the
//! client it was copied from. In a contract, a copy equals the client it was made
//! from. Of a client's inside only its default headers have a name.

use crate::header::{header_map_fields, HeaderField, MAX_HEADER_NAMES};
use reqwest::header::{HeaderMap, HeaderValue};
use reqwest::Client;
use vstd::prelude::*;

verus! {

/// The HTTP client.
#[verifier::external_type_specification]
#[verifier::external_body]
pub struct ExClient(reqwest::Client);

/// The error of the HTTP stack, here for a client that could not be built.
#[verifier::external_type_specification]
#[verifier::external_body]
pub struct ExBuildError(reqwest::Error);

/// The default headers of a client: what it adds to every request that does not
/// set a header of that name itself. They are fixed when the client is built.
pub uninterp spec fn client_default_headers(client: Client) -> Map<Seq<char>, Seq<HeaderField>>;

/// Whether `all` holds every name of `some`, with the same values.
pub open spec fn carries(
    all: Map<Seq<char>, Seq<HeaderField>>,
    some: Map<Seq<char>, Seq<HeaderField>>,
) -> bool {
    forall|name: Seq<char>| #[trigger]
        some.contains_key(name) ==> all.contains_key(name) && all[name] == some[name]
}

/// Whether every name in `fields` has exactly one value.
pub open spec fn single_valued(fields: Map<Seq<char>, Seq<HeaderField>>) -> bool {
    forall|name: Seq<char>| #[trigger] fields.contains_key(name) ==> fields[name].len() == 1
}

/// `Client::builder().default_headers(headers).build()`: a client whose default
/// headers carry `headers` (beside those that every client has), given that no name
/// in `headers` has several values. Whether the build succeeds depends on the
/// machine (the TLS backend, the resolver's configuration), so success is not
/// promised. The builder adds the names of `headers` to a header map of its own,
/// and that map panics when it reaches its size limit; a map of so many names is
/// excluded.
#[verifier::external_body]
pub(crate) fn build_client(headers: HeaderMap<HeaderValue>) -> (res: Result<
    Client,
    reqwest::Error,
>)
    requires
        header_map_fields(headers).dom().finite(),
        header_map_fields(headers).dom().len() < MAX_HEADER_NAMES,
    ensures
        res is Ok && single_valued(header_map_fields(headers)) ==> carries(
            client_default_headers(res->Ok_0),
            header_map_fields(headers),
        ),
{
    Client::builder().default_headers(headers).build()
}

/// `Client::clone`: another handle to the same client.
#[verifier::external_body]
pub(crate) fn share_client(client: &Client) -> (copy: Client)
    ensures
        copy == *client,
{
    client.clone()
}

/// The text of a build error, as its `Display` gives it.
#[verifier::external_body]
pub(crate) fn build_error_text(error: &reqwest::Error) -> (text: String) {
    error.to_string()
}

} // verus!
