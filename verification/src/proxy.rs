//! A proxy that sends each request on to the backend of the host that the request names.
use crate::text;
use vstd::prelude::*;
use vstd::string::*;
use vstd::utf8;

verus! {

/// The status of the response to a request that names no known host.
pub const NOT_FOUND: u16 = 404;

/// The parts of a URI.
#[derive(Debug)]
pub struct UriParts {
    pub scheme: Option<String>,
    pub authority: Option<String>,
    pub path_and_query: Option<String>,
}

/// Which part is missing for a set of parts to be a URI.
#[derive(Debug, Clone, Copy, PartialEq, Eq, Structural)]
pub enum UriPartsError {
    SchemeMissing,
    AuthorityMissing,
    PathAndQueryMissing,
}

/// What an error says.
pub open spec fn missing_part_text(error: UriPartsError) -> Seq<char> {
    match error {
        UriPartsError::SchemeMissing => "scheme missing"@,
        UriPartsError::AuthorityMissing => "authority missing"@,
        UriPartsError::PathAndQueryMissing => "path missing"@,
    }
}

impl UriPartsError {
    /// What the error says.
    pub fn to_string(&self) -> (s: String)
        ensures
            s@ == missing_part_text(*self),
    {
        match self {
            UriPartsError::SchemeMissing => "scheme missing".to_owned(),
            UriPartsError::AuthorityMissing => "authority missing".to_owned(),
            UriPartsError::PathAndQueryMissing => "path missing".to_owned(),
        }
    }
}

/// Which part is missing: a URI with a scheme has an authority and a path, and one without a scheme
/// does not have both.
pub open spec fn missing_part(parts: UriParts) -> Option<UriPartsError> {
    if parts.scheme is Some && parts.authority is None {
        Some(UriPartsError::AuthorityMissing)
    } else if parts.scheme is Some && parts.path_and_query is None {
        Some(UriPartsError::PathAndQueryMissing)
    } else if parts.scheme is None && parts.authority is Some && parts.path_and_query is Some {
        Some(UriPartsError::SchemeMissing)
    } else {
        None
    }
}

/// Whether `new` is `uri` with its scheme set to HTTP and its authority replaced.
pub open spec fn is_rewritten(uri: UriParts, authority: Seq<char>, new: UriParts) -> bool {
    &&& text::optional_text(new.scheme) == Some("http"@)
    &&& text::optional_text(new.authority) == Some(authority)
    &&& text::optional_text(new.path_and_query) == text::optional_text(uri.path_and_query)
}

impl UriParts {
    /// Tells whether the parts are those of a URI.
    pub fn check(&self) -> (r: Result<(), UriPartsError>)
        ensures
            match r {
                Ok(_) => missing_part(*self) is None,
                Err(error) => missing_part(*self) == Some(error),
            },
    {
        if self.scheme.is_some() {
            if self.authority.is_none() {
                return Err(UriPartsError::AuthorityMissing);
            }
            if self.path_and_query.is_none() {
                return Err(UriPartsError::PathAndQueryMissing);
            }
        } else {
            if self.authority.is_some() && self.path_and_query.is_some() {
                return Err(UriPartsError::SchemeMissing);
            }
        }
        Ok(())
    }

    /// The URI with its scheme set to HTTP and its authority replaced. There is none for a URI
    /// without a path.
    pub fn with_authority(&self, authority: String) -> (r: Result<UriParts, UriPartsError>)
        ensures
            match r {
                Ok(new) => self.path_and_query is Some && is_rewritten(*self, authority@, new),
                Err(error) => self.path_and_query is None && error
                    == UriPartsError::PathAndQueryMissing,
            },
    {
        let new = UriParts {
            scheme: Some("http".to_owned()),
            authority: Some(authority),
            path_and_query: self.path_and_query.clone(),
        };
        match new.check() {
            Ok(_) => Ok(new),
            Err(error) => Err(error),
        }
    }
}

/// The error of `http::uri::Authority::from_str`, of which nothing is known.
#[verifier::external_type_specification]
#[verifier::external_body]
pub struct ExInvalidUri(http::uri::InvalidUri);

/// The error of `std::str::from_utf8`, of which nothing is known.
#[verifier::external_type_specification]
#[verifier::external_body]
pub struct ExUtf8Error(std::str::Utf8Error);

/// The text of the authority that `http::uri::Authority::from_str` makes of a text, if the text is
/// an authority.
pub uninterp spec fn parsed_authority(input: Seq<char>) -> Option<Seq<char>>;

/// Whether a character may stand in the name of a host: an ASCII letter, a digit, `-` or `.`.
pub open spec fn is_host_char(c: char) -> bool {
    let n = c as nat;
    ||| 65 <= n <= 90
    ||| 97 <= n <= 122
    ||| 48 <= n <= 57
    ||| c == '-'
    ||| c == '.'
}

/// Whether a text is made of characters of host names, with at most one colon among them.
pub open spec fn is_host_and_port(s: Seq<char>) -> bool {
    &&& s.len() > 0
    &&& forall|i: int| 0 <= i < s.len() ==> is_host_char(#[trigger] s[i]) || s[i] == ':'
    &&& forall|i: int, j: int|
        0 <= i < j < s.len() ==> !(#[trigger] s[i] == ':' && #[trigger] s[j] == ':')
}

/// Calls `http::uri::Authority::from_str`, which checks a text and, if it is an authority, keeps it
/// as it is. It refuses the empty text, and accepts a host name or an IPv4 address with or without
/// a port. Of other texts it is claimed only that what it does is a function of the text; and
/// nothing is claimed of the error.
#[verifier::external_body]
fn parse_authority(input: &str) -> (r: Result<String, http::uri::InvalidUri>)
    ensures
        match r {
            Ok(authority) => parsed_authority(input@) == Some(authority@),
            Err(_) => parsed_authority(input@) is None,
        },
        r matches Ok(authority) ==> authority@ == input@,
        input@.len() == 0 ==> r is Err,
        is_host_and_port(input@) ==> r is Ok,
{
    match <http::uri::Authority as std::str::FromStr>::from_str(input) {
        Ok(authority) => Ok(authority.as_str().to_owned()),
        Err(error) => Err(error),
    }
}

/// `std::str::from_utf8` turns bytes that are valid UTF-8 into the text that they encode, and
/// refuses other bytes.
pub assume_specification[ std::str::from_utf8 ](v: &[u8]) -> (r: Result<&str, std::str::Utf8Error>)
    ensures
        match r {
            Ok(s) => utf8::valid_utf8(v@) && s@ == utf8::decode_utf8(v@),
            Err(_) => !utf8::valid_utf8(v@),
        },
;

/// Why the URI of a request could not be rewritten.
#[derive(Debug)]
pub enum RewriteError {
    /// The address is not an authority.
    InvalidAuthority(http::uri::InvalidUri),
    /// The parts do not make a URI.
    InvalidParts(UriPartsError),
}

/// What comes of rewriting a URI to an address.
pub open spec fn rewrite_result(
    authority: Seq<char>,
    uri: UriParts,
    r: Result<UriParts, RewriteError>,
) -> bool {
    match parsed_authority(authority) {
        Some(parsed) => if uri.path_and_query is Some {
            r matches Ok(new) && is_rewritten(uri, parsed, new)
        } else {
            r == Err::<UriParts, RewriteError>(
                RewriteError::InvalidParts(UriPartsError::PathAndQueryMissing),
            )
        },
        None => r matches Err(RewriteError::InvalidAuthority(_)),
    }
}

/// The URI with its scheme set to HTTP and its authority set to an address.
pub fn rewrite_uri(authority: &str, uri: &UriParts) -> (r: Result<UriParts, RewriteError>)
    ensures
        rewrite_result(authority@, *uri, r),
        r matches Ok(new) ==> is_rewritten(*uri, authority@, new),
        is_host_and_port(authority@) && uri.path_and_query is Some ==> r is Ok,
        authority@.len() == 0 ==> r matches Err(RewriteError::InvalidAuthority(_)),
{
    let authority = match parse_authority(authority) {
        Ok(authority) => authority,
        Err(error) => return Err(RewriteError::InvalidAuthority(error)),
    };
    match uri.with_authority(authority) {
        Ok(new) => Ok(new),
        Err(error) => Err(RewriteError::InvalidParts(error)),
    }
}

/// Why a request could not be answered.
#[derive(Debug)]
pub enum ProxyError<E> {
    /// The host that the request names is not text.
    InvalidHost(std::str::Utf8Error),
    /// The routes could not be consulted.
    Lookup(E),
    /// The request could not be directed to its backend.
    Rewrite(RewriteError),
    /// The backend did not answer.
    Upstream(E),
}

/// What to do next with a request.
pub enum ProxyStep<R, E> {
    /// Look up the address to which requests for a host are sent.
    LookUp { host: String },
    /// Send the request on, with a URI in place of its own.
    Forward { uri: UriParts },
    /// Answer with the response of the backend.
    Respond(R),
    /// Answer with an empty response of the given status.
    RespondEmpty { status: u16 },
    Fail(ProxyError<E>),
}

/// What came of something that was asked for.
pub enum ProxyReply<R, E> {
    /// The address to which requests for the host are sent, if there is one.
    Route(Result<Option<String>, E>),
    /// The response of the backend.
    Response(Result<R, E>),
}

/// What a request waits for.
#[derive(Debug, Clone, Copy, PartialEq, Eq, Structural)]
pub enum ProxyStage {
    LookingUp,
    Forwarding,
    Finished,
}

/// A request that is being answered.
pub struct ProxyRequest {
    pub uri: UriParts,
    pub stage: ProxyStage,
}

/// How the answering of a request begins: the host that it names is looked up, if it names one.
pub open spec fn handle_started<R, E>(
    host: Option<&[u8]>,
    uri: UriParts,
    request: ProxyRequest,
    step: ProxyStep<R, E>,
) -> bool {
    &&& request.uri == uri
    &&& match host {
        Some(bytes) => if utf8::valid_utf8(bytes@) {
            &&& request.stage is LookingUp
            &&& step matches ProxyStep::LookUp { host } && host@ == utf8::decode_utf8(bytes@)
        } else {
            &&& request.stage is Finished
            &&& step matches ProxyStep::Fail(ProxyError::InvalidHost(_))
        },
        None => {
            &&& request.stage is Finished
            &&& step == ProxyStep::RespondEmpty::<R, E> { status: NOT_FOUND }
        },
    }
}

/// How a request goes on once the address of its backend is known.
pub open spec fn route_found<R, E>(
    address: Seq<char>,
    uri: UriParts,
    stage: ProxyStage,
    step: Option<ProxyStep<R, E>>,
) -> bool {
    match parsed_authority(address) {
        Some(authority) => if uri.path_and_query is Some {
            &&& stage is Forwarding
            &&& step matches Some(ProxyStep::Forward { uri: new }) && is_rewritten(
                uri,
                authority,
                new,
            )
        } else {
            &&& stage is Finished
            &&& step == Some(
                ProxyStep::Fail::<R, E>(
                    ProxyError::Rewrite(
                        RewriteError::InvalidParts(UriPartsError::PathAndQueryMissing),
                    ),
                ),
            )
        },
        None => {
            &&& stage is Finished
            &&& step matches Some(
                ProxyStep::Fail(ProxyError::Rewrite(RewriteError::InvalidAuthority(_))),
            )
        },
    }
}

/// How the answering of a request goes on with a reply. A reply for which it does not wait changes
/// nothing.
pub open spec fn proxy_step<R, E>(
    before: ProxyRequest,
    reply: ProxyReply<R, E>,
    after: ProxyRequest,
    step: Option<ProxyStep<R, E>>,
) -> bool {
    &&& after.uri == before.uri
    &&& match (before.stage, reply) {
        (ProxyStage::LookingUp, ProxyReply::Route(Ok(Some(address)))) => {
            &&& route_found(address@, before.uri, after.stage, step)
            &&& step matches Some(ProxyStep::Forward { uri }) ==> text::optional_text(uri.authority)
                == Some(address@)
            &&& (is_host_and_port(address@) && before.uri.path_and_query is Some
                ==> step matches Some(ProxyStep::Forward { .. }))
            &&& (address@.len() == 0 ==> step matches Some(ProxyStep::Fail(_)))
        },
        (ProxyStage::LookingUp, ProxyReply::Route(Ok(None))) => {
            &&& after.stage is Finished
            &&& step == Some(ProxyStep::RespondEmpty::<R, E> { status: NOT_FOUND })
        },
        (ProxyStage::LookingUp, ProxyReply::Route(Err(error))) => {
            &&& after.stage is Finished
            &&& step == Some(ProxyStep::Fail::<R, E>(ProxyError::Lookup(error)))
        },
        (ProxyStage::Forwarding, ProxyReply::Response(Ok(response))) => {
            &&& after.stage is Finished
            &&& step == Some(ProxyStep::Respond::<R, E>(response))
        },
        (ProxyStage::Forwarding, ProxyReply::Response(Err(error))) => {
            &&& after.stage is Finished
            &&& step == Some(ProxyStep::Fail::<R, E>(ProxyError::Upstream(error)))
        },
        _ => after.stage == before.stage && step is None,
    }
}

impl ProxyRequest {
    /// Takes a reply, and says what to do next. There is nothing to do for a reply that is not
    /// waited for.
    pub fn step<R, E>(&mut self, reply: ProxyReply<R, E>) -> (step: Option<ProxyStep<R, E>>)
        ensures
            proxy_step(*old(self), reply, *final(self), step),
    {
        match (self.stage, reply) {
            (ProxyStage::LookingUp, ProxyReply::Route(result)) => match result {
                Ok(Some(address)) => match rewrite_uri(address.as_str(), &self.uri) {
                    Ok(uri) => {
                        self.stage = ProxyStage::Forwarding;
                        Some(ProxyStep::Forward { uri })
                    },
                    Err(error) => {
                        self.stage = ProxyStage::Finished;
                        Some(ProxyStep::Fail(ProxyError::Rewrite(error)))
                    },
                },
                Ok(None) => {
                    self.stage = ProxyStage::Finished;
                    Some(ProxyStep::RespondEmpty { status: NOT_FOUND })
                },
                Err(error) => {
                    self.stage = ProxyStage::Finished;
                    Some(ProxyStep::Fail(ProxyError::Lookup(error)))
                },
            },
            (ProxyStage::Forwarding, ProxyReply::Response(result)) => {
                self.stage = ProxyStage::Finished;
                match result {
                    Ok(response) => Some(ProxyStep::Respond(response)),
                    Err(error) => Some(ProxyStep::Fail(ProxyError::Upstream(error))),
                }
            },
            _ => None,
        }
    }
}

/// What answers requests: the routes, and the client with which requests are sent on.
pub struct ProxyService<D, C> {
    pub db: D,
    pub client: C,
}

/// What makes a service for each connection.
pub struct MakeProxyService<D, C> {
    pub db: D,
    pub client: C,
}

impl<D: Clone, C: Clone> MakeProxyService<D, C> {
    /// A maker of services that share routes and a client.
    pub fn new(db: D, client: C) -> (maker: Self)
        ensures
            maker == (MakeProxyService { db, client }),
    {
        MakeProxyService { db, client }
    }

    /// The service for a connection.
    pub fn call(&self) -> (service: ProxyService<D, C>)
        ensures
            cloned(self.db, service.db),
            cloned(self.client, service.client),
    {
        ProxyService { db: self.db.clone(), client: self.client.clone() }
    }
}

impl<D: Clone, C: Clone> Clone for ProxyService<D, C> {
    fn clone(&self) -> (copy: Self)
        ensures
            cloned(self.db, copy.db),
            cloned(self.client, copy.client),
    {
        ProxyService { db: self.db.clone(), client: self.client.clone() }
    }
}

impl<D, C> ProxyService<D, C> {
    /// Begins to answer a request that names a host, or none, and asks for a URI.
    pub fn handle<R, E>(&self, host: Option<&[u8]>, uri: UriParts) -> (r: (
        ProxyRequest,
        ProxyStep<R, E>,
    ))
        ensures
            handle_started(host, uri, r.0, r.1),
    {
        match host {
            Some(bytes) => match std::str::from_utf8(bytes) {
                Ok(host) => (
                    ProxyRequest { uri, stage: ProxyStage::LookingUp },
                    ProxyStep::LookUp { host: host.to_owned() },
                ),
                Err(error) => (
                    ProxyRequest { uri, stage: ProxyStage::Finished },
                    ProxyStep::Fail(ProxyError::InvalidHost(error)),
                ),
            },
            None => (
                ProxyRequest { uri, stage: ProxyStage::Finished },
                ProxyStep::RespondEmpty { status: NOT_FOUND },
            ),
        }
    }
}

/// Rewriting a URI a second time undoes the first: only the last address counts.
pub proof fn law_last_rewrite_counts(
    uri: UriParts,
    first: Seq<char>,
    once: UriParts,
    second: Seq<char>,
    twice: UriParts,
)
    requires
        is_rewritten(uri, first, once),
        is_rewritten(once, second, twice),
    ensures
        is_rewritten(uri, second, twice),
{
}

/// A rewritten URI with a path lacks no part.
pub proof fn law_rewritten_uri_is_complete(uri: UriParts, authority: Seq<char>, new: UriParts)
    requires
        is_rewritten(uri, authority, new),
        uri.path_and_query is Some,
    ensures
        missing_part(new) is None,
{
}

/// A request is sent on only to the address that was found for its host, over HTTP, and with the
/// path and the query that it asked for.
pub proof fn law_request_goes_to_its_route<R, E>(
    before: ProxyRequest,
    reply: ProxyReply<R, E>,
    after: ProxyRequest,
    step: Option<ProxyStep<R, E>>,
)
    requires
        proxy_step(before, reply, after, step),
        step matches Some(ProxyStep::Forward { .. }),
    ensures
        step matches Some(ProxyStep::Forward { uri }) && reply matches ProxyReply::Route(
            Ok(Some(address)),
        ) && is_rewritten(before.uri, address@, uri),
{
}

/// Whether a step answers with an empty response that says that nothing was found.
pub open spec fn says_not_found<R, E>(step: ProxyStep<R, E>) -> bool {
    step matches ProxyStep::RespondEmpty { status } && status == 404
}

/// Whether a step answers a request, or gives it up.
pub open spec fn ends_request<R, E>(step: ProxyStep<R, E>) -> bool {
    step is Respond || step is RespondEmpty || step is Fail
}

/// A request for a host without a route, and a request that names no host, are both answered with
/// an empty response that says that nothing was found.
pub proof fn law_unknown_host_is_not_found<R, E>(
    host: Option<&[u8]>,
    uri: UriParts,
    request: ProxyRequest,
    first: ProxyStep<R, E>,
    after: ProxyRequest,
    second: Option<ProxyStep<R, E>>,
)
    requires
        handle_started(host, uri, request, first),
        proxy_step(request, ProxyReply::Route(Ok(None)), after, second),
        host matches Some(bytes) ==> utf8::valid_utf8(bytes@),
    ensures
        host is None ==> says_not_found(first) && second is None,
        host is Some ==> second is Some && says_not_found(second->0),
{
}

/// A request for a host with a route is sent on to the address of the route, and answered with what
/// the backend responds.
pub proof fn law_routed_request_gets_the_response<R, E>(
    host: &[u8],
    uri: UriParts,
    address: String,
    response: R,
    s0: ProxyRequest,
    s1: ProxyRequest,
    s2: ProxyRequest,
    step0: ProxyStep<R, E>,
    step1: Option<ProxyStep<R, E>>,
    step2: Option<ProxyStep<R, E>>,
)
    requires
        utf8::valid_utf8(host@),
        uri.path_and_query is Some,
        is_host_and_port(address@),
        handle_started(Some(host), uri, s0, step0),
        proxy_step(s0, ProxyReply::Route(Ok(Some(address))), s1, step1),
        proxy_step(s1, ProxyReply::Response(Ok(response)), s2, step2),
    ensures
        step0 matches ProxyStep::LookUp { host: name } && name@ == utf8::decode_utf8(host@),
        step1 matches Some(ProxyStep::Forward { uri: new }) && is_rewritten(uri, address@, new),
        step2 == Some(ProxyStep::Respond::<R, E>(response)),
        s2.stage is Finished,
{
}

/// Once a request has been answered or has failed, no reply leads to anything more.
pub proof fn law_request_is_answered_once<R, E>(
    before: ProxyRequest,
    reply: ProxyReply<R, E>,
    after: ProxyRequest,
    step: Option<ProxyStep<R, E>>,
    next_reply: ProxyReply<R, E>,
    next: ProxyRequest,
    next_step: Option<ProxyStep<R, E>>,
)
    requires
        proxy_step(before, reply, after, step),
        step is Some && ends_request(step->0),
        proxy_step(after, next_reply, next, next_step),
    ensures
        next_step is None,
        next == after,
{
}

} // verus!
