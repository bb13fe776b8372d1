//! Request planning and response interpretation for the Firefox Relay API.
//!
//! The client here owns the bearer token and translates each high-level
//! alias operation into a [`PlannedRequest`]: the method, the exact URL of
//! one of the two sub-resources (standard relay addresses or custom domain
//! relay addresses), and a structured body. Id-addressed mutations are
//! first resolved against a listing, so that the request goes to the
//! sub-resource the id belongs to. The transport that carries a planned
//! request and hands back its HTTP status lives outside the library;
//! outcome functions here turn each status into the operation's result.

use vstd::prelude::*;

use crate::error::Error;
use crate::strutil::dec_str;
use crate::strutil::u64_to_string;
use crate::types::spec_is_domain;
use crate::types::FirefoxEmailRelay;
use crate::types::FirefoxEmailRelayRequest;

verus! {

/// The two sub-resource families every alias belongs to.
#[derive(Debug, Clone, Copy, PartialEq, Eq, Structural)]
pub enum Endpoint {
    /// Standard relay addresses under the service's own domain.
    Standard,
    /// Relay addresses under a user's custom domain.
    Domain,
}

/// The HTTP method of a planned request.
#[derive(Debug, Clone, Copy, PartialEq, Eq, Structural)]
pub enum HttpMethod {
    Get,
    Post,
    Delete,
    Patch,
}

/// The structured body of a planned request; the transport encodes it as
/// JSON on the wire.
#[derive(Debug, Clone, PartialEq, Eq)]
pub enum RequestBody {
    /// No body.
    Empty,
    /// The creation parameters, sent as one JSON object.
    Create(FirefoxEmailRelayRequest),
    /// The enabled flag alone, sent as `{"enabled": bool}`.
    Toggle(bool),
}

/// One fully planned REST call: what to send, and where.
#[derive(Debug, Clone, PartialEq, Eq)]
pub struct PlannedRequest {
    /// The HTTP method to use.
    pub method: HttpMethod,
    /// The complete URL.
    pub url: String,
    /// The body to encode, if any.
    pub body: RequestBody,
}

/// The fixed base of every URL the client addresses.
pub open spec fn spec_api_base() -> Seq<char> {
    "https://relay.firefox.com/api"@
}

/// The path segment of a sub-resource family.
pub open spec fn spec_endpoint_path(endpoint: Endpoint) -> Seq<char> {
    match endpoint {
        Endpoint::Standard => "v1/relayaddresses"@,
        Endpoint::Domain => "v1/domainaddresses"@,
    }
}

/// URL of a listing call: `{base}/{endpoint}`.
pub open spec fn spec_list_url(endpoint: Endpoint) -> Seq<char> {
    spec_api_base() + "/"@ + spec_endpoint_path(endpoint)
}

/// URL of a creation call: `{base}/{endpoint}/`.
pub open spec fn spec_create_url(endpoint: Endpoint) -> Seq<char> {
    spec_list_url(endpoint) + "/"@
}

/// URL of a deletion call: `{base}/{endpoint}/{id}`.
pub open spec fn spec_delete_url(endpoint: Endpoint, email_id: nat) -> Seq<char> {
    spec_list_url(endpoint) + "/"@ + dec_str(email_id)
}

/// URL of an enable/disable call: `{base}/{endpoint}/{id}/`.
pub open spec fn spec_toggle_url(endpoint: Endpoint, email_id: nat) -> Seq<char> {
    spec_delete_url(endpoint, email_id) + "/"@
}

/// URL of the profile listing call.
pub open spec fn spec_profiles_url() -> Seq<char> {
    spec_api_base() + "/v1/profiles/"@
}

/// The authorization header value carrying the bearer token.
pub open spec fn spec_auth_header(token: Seq<char>) -> Seq<char> {
    "Token "@ + token
}

/// The sub-resource a relay belongs to, derived from its address.
pub open spec fn spec_endpoint_for(relay: FirefoxEmailRelay) -> Endpoint {
    if spec_is_domain(relay.full_address@) {
        Endpoint::Domain
    } else {
        Endpoint::Standard
    }
}

/// Some relay in the listing carries this id.
pub open spec fn spec_has_id(relays: Seq<FirefoxEmailRelay>, email_id: u64) -> bool {
    exists|k: int| 0 <= k < relays.len() && relays[k].id == email_id
}

/// `k` is the position of the first relay carrying this id.
pub open spec fn is_first_with_id(relays: Seq<FirefoxEmailRelay>, email_id: u64, k: int) -> bool {
    &&& 0 <= k < relays.len()
    &&& relays[k].id == email_id
    &&& forall|j: int| 0 <= j < k ==> relays[j].id != email_id
}

/// The first position with a given id is unique.
proof fn lemma_first_with_id_unique(
    relays: Seq<FirefoxEmailRelay>,
    email_id: u64,
    i: int,
    k: int,
)
    requires
        is_first_with_id(relays, email_id, i),
        is_first_with_id(relays, email_id, k),
    ensures
        i == k,
{
    if i < k {
        assert(relays[i].id != email_id);
    } else if k < i {
        assert(relays[k].id != email_id);
    }
}

/// An HTTP status that the service counts as success.
pub open spec fn spec_is_success(status: u16) -> bool {
    200 <= status < 300
}

fn endpoint_path(endpoint: Endpoint) -> (r: &'static str)
    ensures
        r@ == spec_endpoint_path(endpoint),
{
    match endpoint {
        Endpoint::Standard => "v1/relayaddresses",
        Endpoint::Domain => "v1/domainaddresses",
    }
}

fn sub_resource_url(endpoint: Endpoint) -> (r: String)
    ensures
        r@ == spec_list_url(endpoint),
{
    let mut s = String::from_str("https://relay.firefox.com/api");
    s.append("/");
    s.append(endpoint_path(endpoint));
    proof {
        assert(s@ =~= spec_list_url(endpoint));
    }
    s
}

fn id_url(endpoint: Endpoint, email_id: u64) -> (r: String)
    ensures
        r@ == spec_delete_url(endpoint, email_id as nat),
{
    let mut s = sub_resource_url(endpoint);
    s.append("/");
    s.append(u64_to_string(email_id).as_str());
    proof {
        assert(s@ =~= spec_delete_url(endpoint, email_id as nat));
    }
    s
}

/// The relays a full listing reports for one sub-resource call: its
/// records on success, nothing when the call failed.
pub open spec fn spec_group(res: Result<Vec<FirefoxEmailRelay>, Error>) -> Seq<FirefoxEmailRelay> {
    match res {
        Ok(v) => v@,
        Err(_) => Seq::empty(),
    }
}

/// Aggregates the two sub-resource listings: standard relays first, then
/// domain relays, each group in its server-returned order. A failed
/// sub-resource call contributes nothing — deliberately, so that listing
/// stays usable while one sub-resource is unavailable; when both calls
/// fail the aggregate is empty rather than an error.
pub fn merge_list_results(
    standard: Result<Vec<FirefoxEmailRelay>, Error>,
    domain: Result<Vec<FirefoxEmailRelay>, Error>,
) -> (r: Vec<FirefoxEmailRelay>)
    ensures
        r@ == spec_group(standard) + spec_group(domain),
{
    let ghost gs = spec_group(standard);
    let ghost gd = spec_group(domain);
    let mut relays: Vec<FirefoxEmailRelay> = Vec::new();
    if let Ok(mut v) = standard {
        relays.append(&mut v);
    }
    if let Ok(mut v) = domain {
        relays.append(&mut v);
    }
    proof {
        assert(relays@ =~= gs + gd);
    }
    relays
}

/// Finds the first relay carrying `email_id`, scanning the aggregate
/// listing linearly; reports [`Error::RelayIdNotFound`] when no relay
/// carries it.
pub fn find_email_relay<'a>(relays: &'a Vec<FirefoxEmailRelay>, email_id: u64) -> (r: Result<
    &'a FirefoxEmailRelay,
    Error,
>)
    ensures
        r is Ok <==> spec_has_id(relays@, email_id),
        r matches Ok(relay) ==> exists|k: int|
            is_first_with_id(relays@, email_id, k) && *relay == relays@[k],
        r is Err ==> r == Err::<&'a FirefoxEmailRelay, Error>(Error::RelayIdNotFound),
{
    let n: usize = relays.len();
    let mut i: usize = 0;
    while i < n
        invariant
            0 <= i <= n,
            n == relays@.len(),
            forall|j: int| 0 <= j < i ==> relays@[j].id != email_id,
        decreases n - i,
    {
        if relays[i].id == email_id {
            proof {
                assert(is_first_with_id(relays@, email_id, i as int));
            }
            return Ok(&relays[i]);
        }
        i += 1;
    }
    Err(Error::RelayIdNotFound)
}

/// Turns the HTTP status of a deletion call into its result: success
/// statuses succeed, every other status is a deletion failure carrying
/// that status.
pub fn delete_outcome(status: u16) -> (r: Result<(), Error>)
    ensures
        spec_is_success(status) ==> r == Ok::<(), Error>(()),
        !spec_is_success(status) ==> r == Err::<(), Error>(
            (Error::EmailDeletionFailure { http_status: status }),
        ),
{
    if status >= 200 && status < 300 {
        Ok(())
    } else {
        Err(Error::EmailDeletionFailure { http_status: status })
    }
}

/// The result of a creation call: the full address of the relay the
/// service's response describes.
pub fn create_outcome(relay: FirefoxEmailRelay) -> (r: String)
    ensures
        r@ == relay.full_address@,
{
    relay.full_address
}

/// Turns the HTTP status of an enable/disable call into its result:
/// success statuses succeed, every other status is an update failure
/// carrying that status.
pub fn update_outcome(status: u16) -> (r: Result<(), Error>)
    ensures
        spec_is_success(status) ==> r == Ok::<(), Error>(()),
        !spec_is_success(status) ==> r == Err::<(), Error>(
            (Error::EmailUpdateFailure { http_status: status }),
        ),
{
    if status >= 200 && status < 300 {
        Ok(())
    } else {
        Err(Error::EmailUpdateFailure { http_status: status })
    }
}

/// The API client: holds the bearer token for its lifetime and plans every
/// REST call the operations need.
pub struct FFRelayApi {
    /// The opaque credential embedded in each request's authorization
    /// header; held as given, never validated or changed.
    pub token: String,
}

impl FFRelayApi {
    /// Creates a client around a bearer token.
    pub fn new(token: String) -> (api: Self)
        ensures
            api.token@ == token@,
    {
        FFRelayApi { token }
    }

    /// The authorization header value every planned request carries.
    pub fn auth_header(&self) -> (r: String)
        ensures
            r@ == spec_auth_header(self.token@),
    {
        let mut s = String::from_str("Token ");
        s.append(self.token.as_str());
        s
    }

    /// Plans the GET that lists one sub-resource.
    pub fn list_request(&self, endpoint: Endpoint) -> (r: PlannedRequest)
        ensures
            r.method == HttpMethod::Get,
            r.url@ == spec_list_url(endpoint),
            r.body == RequestBody::Empty,
    {
        PlannedRequest {
            method: HttpMethod::Get,
            url: sub_resource_url(endpoint),
            body: RequestBody::Empty,
        }
    }

    /// Plans the GET that lists the account's profiles.
    pub fn profiles_request(&self) -> (r: PlannedRequest)
        ensures
            r.method == HttpMethod::Get,
            r.url@ == spec_profiles_url(),
            r.body == RequestBody::Empty,
    {
        let mut s = String::from_str("https://relay.firefox.com/api");
        s.append("/v1/profiles/");
        PlannedRequest { method: HttpMethod::Get, url: s, body: RequestBody::Empty }
    }

    fn create_with_endpoint(&self, endpoint: Endpoint, request: FirefoxEmailRelayRequest) -> (r:
        PlannedRequest)
        ensures
            r.method == HttpMethod::Post,
            r.url@ == spec_create_url(endpoint),
            r.body == RequestBody::Create(request),
    {
        let mut url = sub_resource_url(endpoint);
        url.append("/");
        PlannedRequest { method: HttpMethod::Post, url, body: RequestBody::Create(request) }
    }

    /// Plans the POST that creates a relay. A request carrying a custom
    /// address goes to the domain sub-resource; one without goes to the
    /// standard sub-resource.
    pub fn create_request(&self, request: FirefoxEmailRelayRequest) -> (r: PlannedRequest)
        ensures
            r.method == HttpMethod::Post,
            r.body == RequestBody::Create(request),
            request.address is Some ==> r.url@ == spec_create_url(Endpoint::Domain),
            request.address is None ==> r.url@ == spec_create_url(Endpoint::Standard),
    {
        let endpoint = if request.address.is_some() {
            Endpoint::Domain
        } else {
            Endpoint::Standard
        };
        self.create_with_endpoint(endpoint, request)
    }

    fn delete_with_endpoint(&self, endpoint: Endpoint, email_id: u64) -> (r: PlannedRequest)
        ensures
            r.method == HttpMethod::Delete,
            r.url@ == spec_delete_url(endpoint, email_id as nat),
            r.body == RequestBody::Empty,
    {
        PlannedRequest {
            method: HttpMethod::Delete,
            url: id_url(endpoint, email_id),
            body: RequestBody::Empty,
        }
    }

    fn toggle_with_endpoint(&self, endpoint: Endpoint, email_id: u64, enabled: bool) -> (r:
        PlannedRequest)
        ensures
            r.method == HttpMethod::Patch,
            r.url@ == spec_toggle_url(endpoint, email_id as nat),
            r.body == RequestBody::Toggle(enabled),
    {
        let mut url = id_url(endpoint, email_id);
        url.append("/");
        PlannedRequest { method: HttpMethod::Patch, url, body: RequestBody::Toggle(enabled) }
    }

    /// Plans the DELETE for `email_id`, resolved against the aggregate
    /// listing: the request addresses exactly the sub-resource the first
    /// relay with that id belongs to. An id absent from the listing is
    /// [`Error::RelayIdNotFound`], and no request is planned for it.
    pub fn delete_request(&self, relays: &Vec<FirefoxEmailRelay>, email_id: u64) -> (r: Result<
        PlannedRequest,
        Error,
    >)
        ensures
            r is Ok <==> spec_has_id(relays@, email_id),
            r is Err ==> r == Err::<PlannedRequest, Error>(Error::RelayIdNotFound),
            r matches Ok(req) ==> {
                &&& req.method == HttpMethod::Delete
                &&& req.body == RequestBody::Empty
                &&& forall|k: int|
                    is_first_with_id(relays@, email_id, k) ==> req.url@ == spec_delete_url(
                        spec_endpoint_for(relays@[k]),
                        email_id as nat,
                    )
            },
    {
        match find_email_relay(relays, email_id) {
            Ok(relay) => {
                let endpoint = if relay.is_domain() {
                    Endpoint::Domain
                } else {
                    Endpoint::Standard
                };
                let req = self.delete_with_endpoint(endpoint, email_id);
                proof {
                    let k0 = choose|k: int|
                        is_first_with_id(relays@, email_id, k) && *relay == relays@[k];
                    assert forall|k: int| is_first_with_id(relays@, email_id, k) implies req.url@
                        == spec_delete_url(spec_endpoint_for(relays@[k]), email_id as nat) by {
                        lemma_first_with_id_unique(relays@, email_id, k0, k);
                    };
                }
                Ok(req)
            },
            Err(e) => Err(e),
        }
    }

    fn resolve_toggle(&self, relays: &Vec<FirefoxEmailRelay>, email_id: u64, enabled: bool) -> (r:
        Result<PlannedRequest, Error>)
        ensures
            r is Ok <==> spec_has_id(relays@, email_id),
            r is Err ==> r == Err::<PlannedRequest, Error>(Error::RelayIdNotFound),
            r matches Ok(req) ==> {
                &&& req.method == HttpMethod::Patch
                &&& req.body == RequestBody::Toggle(enabled)
                &&& forall|k: int|
                    is_first_with_id(relays@, email_id, k) ==> req.url@ == spec_toggle_url(
                        spec_endpoint_for(relays@[k]),
                        email_id as nat,
                    )
            },
    {
        match find_email_relay(relays, email_id) {
            Ok(relay) => {
                let endpoint = if relay.is_domain() {
                    Endpoint::Domain
                } else {
                    Endpoint::Standard
                };
                let req = self.toggle_with_endpoint(endpoint, email_id, enabled);
                proof {
                    let k0 = choose|k: int|
                        is_first_with_id(relays@, email_id, k) && *relay == relays@[k];
                    assert forall|k: int| is_first_with_id(relays@, email_id, k) implies req.url@
                        == spec_toggle_url(spec_endpoint_for(relays@[k]), email_id as nat) by {
                        lemma_first_with_id_unique(relays@, email_id, k0, k);
                    };
                }
                Ok(req)
            },
            Err(e) => Err(e),
        }
    }

    /// Plans the PATCH that enables `email_id`, resolved against the
    /// aggregate listing exactly as [`Self::delete_request`] resolves a
    /// deletion; its body is `{"enabled": true}`.
    pub fn enable_request(&self, relays: &Vec<FirefoxEmailRelay>, email_id: u64) -> (r: Result<
        PlannedRequest,
        Error,
    >)
        ensures
            r is Ok <==> spec_has_id(relays@, email_id),
            r is Err ==> r == Err::<PlannedRequest, Error>(Error::RelayIdNotFound),
            r matches Ok(req) ==> {
                &&& req.method == HttpMethod::Patch
                &&& req.body == RequestBody::Toggle(true)
                &&& forall|k: int|
                    is_first_with_id(relays@, email_id, k) ==> req.url@ == spec_toggle_url(
                        spec_endpoint_for(relays@[k]),
                        email_id as nat,
                    )
            },
    {
        self.resolve_toggle(relays, email_id, true)
    }

    /// Plans the PATCH that disables `email_id`, resolved like
    /// [`Self::enable_request`]; its body is `{"enabled": false}`.
    pub fn disable_request(&self, relays: &Vec<FirefoxEmailRelay>, email_id: u64) -> (r: Result<
        PlannedRequest,
        Error,
    >)
        ensures
            r is Ok <==> spec_has_id(relays@, email_id),
            r is Err ==> r == Err::<PlannedRequest, Error>(Error::RelayIdNotFound),
            r matches Ok(req) ==> {
                &&& req.method == HttpMethod::Patch
                &&& req.body == RequestBody::Toggle(false)
                &&& forall|k: int|
                    is_first_with_id(relays@, email_id, k) ==> req.url@ == spec_toggle_url(
                        spec_endpoint_for(relays@[k]),
                        email_id as nat,
                    )
            },
    {
        self.resolve_toggle(relays, email_id, false)
    }
}

} // verus!
