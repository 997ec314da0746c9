//! Authorization of token-guarded endpoints: the website endpoints share
//! one secret; the generic endpoint looks its secret up per tenant, and an
//! unknown tenant is a distinct "not found" outcome, not a rejection.

use vstd::prelude::*;

use crate::config::GenericEndpoint;
use crate::strings::str_eq;

verus! {

/// Whether a declared authorization value matches the configured secret: a
/// missing header is always rejected.
pub open spec fn token_authorized(header: Option<Seq<char>>, secret: Seq<char>) -> bool {
    match header {
        Some(h) => h == secret,
        None => false,
    }
}

/// Checks the token of a website request: exact equality between the
/// declared value and the configured secret.
pub fn check_authorization(header: Option<&str>, secret: &str) -> (r: bool)
    ensures
        r == token_authorized(header.deep_view(), secret@),
{
    match header {
        Some(h) => str_eq(h, secret),
        None => false,
    }
}

/// The first configured tenant at or after `i` bearing `name`.
pub open spec fn endpoint_named_from(
    endpoints: Seq<GenericEndpoint>,
    name: Seq<char>,
    i: int,
) -> Option<GenericEndpoint>
    decreases endpoints.len() - i,
{
    if i < 0 || i >= endpoints.len() {
        None
    } else if endpoints[i].name@ == name {
        Some(endpoints[i])
    } else {
        endpoint_named_from(endpoints, name, i + 1)
    }
}

/// The first configured tenant bearing `name`.
pub open spec fn endpoint_named(endpoints: Seq<GenericEndpoint>, name: Seq<char>) -> Option<
    GenericEndpoint,
> {
    endpoint_named_from(endpoints, name, 0)
}

/// How a request to the generic multi-tenant endpoint is received.
#[derive(Clone, Copy, Debug, PartialEq, Eq, Structural)]
pub enum GenericAuthOutcome {
    /// No tenant of that name is configured.
    EndpointNotFound,
    /// The tenant exists but the declared token does not match its secret.
    Unauthorized,
    /// The tenant exists and the token matches.
    Authorized,
}

impl GenericAuthOutcome {
    /// The HTTP status this outcome answers with: an unknown tenant is 404,
    /// a bad token is 400, an accepted request is 200.
    pub fn status_code(&self) -> (r: u16)
        ensures
            *self == GenericAuthOutcome::EndpointNotFound ==> r == 404,
            *self == GenericAuthOutcome::Unauthorized ==> r == 400,
            *self == GenericAuthOutcome::Authorized ==> r == 200,
    {
        match self {
            GenericAuthOutcome::EndpointNotFound => 404,
            GenericAuthOutcome::Unauthorized => 400,
            GenericAuthOutcome::Authorized => 200,
        }
    }
}

/// What the generic endpoint decides for a tenant name and declared token.
pub open spec fn generic_auth_spec(
    endpoints: Seq<GenericEndpoint>,
    endpoint: Seq<char>,
    header: Option<Seq<char>>,
) -> GenericAuthOutcome {
    match endpoint_named(endpoints, endpoint) {
        None => GenericAuthOutcome::EndpointNotFound,
        Some(ep) => if token_authorized(header, ep.secret@) {
            GenericAuthOutcome::Authorized
        } else {
            GenericAuthOutcome::Unauthorized
        },
    }
}

/// Authorizes a request to the generic endpoint `endpoint`: the tenant must
/// be configured and the declared token must equal its secret.
pub fn authorize_generic(
    endpoints: &Vec<GenericEndpoint>,
    endpoint: &str,
    header: Option<&str>,
) -> (r: GenericAuthOutcome)
    ensures
        r == generic_auth_spec(endpoints@, endpoint@, header.deep_view()),
{
    let mut i: usize = 0;
    while i < endpoints.len()
        invariant
            i <= endpoints@.len(),
            endpoint_named(endpoints@, endpoint@) == endpoint_named_from(
                endpoints@,
                endpoint@,
                i as int,
            ),
        decreases endpoints@.len() - i,
    {
        if str_eq(endpoints[i].name.as_str(), endpoint) {
            proof {
                assert(endpoint_named_from(endpoints@, endpoint@, i as int) == Some(
                    endpoints@[i as int],
                ));
            }
            if check_authorization(header, endpoints[i].secret.as_str()) {
                return GenericAuthOutcome::Authorized;
            } else {
                return GenericAuthOutcome::Unauthorized;
            }
        }
        i += 1;
    }
    GenericAuthOutcome::EndpointNotFound
}

} // verus!
