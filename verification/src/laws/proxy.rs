//! Laws on requests that are sent on to backends.
use crate::net::SocketAddress;
use crate::proxy::{
    rewrite_uri, MakeProxyService, ProxyError, ProxyReply, ProxyRequest, ProxyService, ProxyStage,
    ProxyStep, RewriteError, UriParts, UriPartsError,
};
use crate::{proxy, text};
use vstd::prelude::*;
use vstd::utf8;

verus! {

/// Whether all signs are letters, digits, hyphens and dots, but for one colon at most, and there is a
/// sign.
pub open spec fn is_host_with_port(s: Seq<char>) -> bool {
    &&& s.len() > 0
    &&& forall|i: int|
        0 <= i < s.len() ==> {
            ||| 'a' as nat <= #[trigger] s[i] as nat <= 'z' as nat
            ||| 'A' as nat <= s[i] as nat <= 'Z' as nat
            ||| '0' as nat <= s[i] as nat <= '9' as nat
            ||| s[i] == '-'
            ||| s[i] == '.'
            ||| s[i] == ':'
        }
    &&& forall|i: int, j: int|
        0 <= i < s.len() && 0 <= j < s.len() && #[trigger] s[i] == ':' && #[trigger] s[j] == ':'
            ==> i == j
}

/// Parts make a URI exactly if there is a scheme with an authority and a path, or no scheme and not
/// both of the others; else the missing part is told.
pub proof fn law_parts_are_complete(parts: UriParts, r: Result<(), UriPartsError>)
    requires
        call_ensures(UriParts::check, (&parts,), r),
    ensures
        r is Ok <==> {
            ||| parts.scheme is Some && parts.authority is Some && parts.path_and_query is Some
            ||| parts.scheme is None && parts.authority is None
            ||| parts.scheme is None && parts.path_and_query is None
        },
        r is Err ==> {
            &&& r->Err_0 is SchemeMissing <==> parts.scheme is None
            &&& r->Err_0 is AuthorityMissing <==> parts.scheme is Some && parts.authority is None
        },
{
}

/// A rewritten URI has the scheme of HTTP, the address as its authority, and the path and the query
/// that it had, character for character.
pub proof fn law_rewriting_keeps_path_and_query(
    authority: &str,
    uri: UriParts,
    r: Result<UriParts, RewriteError>,
)
    requires
        call_ensures(rewrite_uri, (authority, &uri), r),
    ensures
        r is Ok ==> {
            &&& r->Ok_0.scheme is Some && r->Ok_0.scheme->0@ == "http"@
            &&& r->Ok_0.authority is Some && r->Ok_0.authority->0@ == authority@
            &&& r->Ok_0.path_and_query is Some
            &&& uri.path_and_query is Some
            &&& r->Ok_0.path_and_query->0@.len() == uri.path_and_query->0@.len()
            &&& forall|i: int|
                0 <= i < uri.path_and_query->0@.len() ==> #[trigger] r->Ok_0.path_and_query->0@[i]
                    == uri.path_and_query->0@[i]
        },
        r is Ok <==> proxy::parsed_authority(authority@) is Some && uri.path_and_query is Some,
        r is Err ==> (r->Err_0 is InvalidAuthority <==> proxy::parsed_authority(authority@) is None),
        r is Err && r->Err_0 is InvalidParts ==> r->Err_0->InvalidParts_0 is PathAndQueryMissing,
        is_host_with_port(authority@) && uri.path_and_query is Some ==> r is Ok,
        authority@.len() == 0 ==> r is Err && r->Err_0 is InvalidAuthority,
{
    if is_host_with_port(authority@) {
        lemma_host_with_port(authority@);
    }
}

/// What the name of a host with a port is made of.
proof fn lemma_host_with_port(s: Seq<char>)
    requires
        is_host_with_port(s),
    ensures
        proxy::is_host_and_port(s),
{
    assert forall|i: int| 0 <= i < s.len() implies proxy::is_host_char(#[trigger] s[i]) || s[i]
        == ':' by {
        if s[i] != ':' {
            lemma_host_char(s[i]);
        }
    }
}

/// Letters, digits, hyphens and dots stand in names of hosts.
proof fn lemma_host_char(c: char)
    requires
        ('a' as nat <= c as nat && c as nat <= 'z' as nat) || ('A' as nat <= c as nat && c as nat
            <= 'Z' as nat) || ('0' as nat <= c as nat && c as nat <= '9' as nat) || c == '-' || c
            == '.',
    ensures
        proxy::is_host_char(c),
{
}

/// The digits of a number are among the signs of a host.
proof fn lemma_digits_of_host(n: nat)
    ensures
        text::decimal(n).len() > 0,
        forall|i: int|
            0 <= i < text::decimal(n).len() ==> '0' as nat <= #[trigger] text::decimal(n)[i] as nat
                <= '9' as nat,
{
    text::lemma_decimal(n);
    assert forall|i: int| 0 <= i < text::decimal(n).len() implies '0' as nat
        <= #[trigger] text::decimal(n)[i] as nat <= '9' as nat by {
        assert(text::is_digit(text::decimal(n)[i]));
    }
}

/// Every IPv4 address with a port is one to which a request can be sent on.
pub proof fn law_every_address_can_be_sent_to(address: SocketAddress)
    ensures
        is_host_with_port(address.text()),
{
    reveal_strlit(".");
    reveal_strlit(":");
    lemma_digits_of_host(address.ip.a as nat);
    lemma_digits_of_host(address.ip.b as nat);
    lemma_digits_of_host(address.ip.c as nat);
    lemma_digits_of_host(address.ip.d as nat);
    lemma_digits_of_host(address.port as nat);
    let a = text::decimal(address.ip.a as nat);
    let b = text::decimal(address.ip.b as nat);
    let c = text::decimal(address.ip.c as nat);
    let d = text::decimal(address.ip.d as nat);
    let p = text::decimal(address.port as nat);
    let s = address.text();
    let colon = a.len() + b.len() + c.len() + d.len() + 3;
    assert(s =~= a + seq!['.'] + b + seq!['.'] + c + seq!['.'] + d + seq![':'] + p);
    assert forall|i: int| 0 <= i < s.len() implies {
        ||| '0' as nat <= #[trigger] s[i] as nat <= '9' as nat
        ||| s[i] == '.'
        ||| i == colon
    } by {
        let (b0, c0, d0) = (
            a.len() + 1,
            a.len() + b.len() + 2,
            a.len() + b.len() + c.len() + 3,
        );
        if i < a.len() {
            assert(s[i] == a[i]);
        } else if b0 <= i < b0 + b.len() {
            assert(s[i] == b[i - b0]);
        } else if c0 <= i < c0 + c.len() {
            assert(s[i] == c[i - c0]);
        } else if d0 <= i < colon {
            assert(s[i] == d[i - d0]);
        } else if i > colon {
            assert(s[i] == p[i - colon - 1]);
        }
    }
    assert(s[colon as int] == ':');
}

/// A request that names a host has that host looked up; one whose host is no text fails; and one
/// that names none is answered at once that nothing was found.
pub proof fn law_named_host_is_looked_up<D, C, R, E>(
    service: ProxyService<D, C>,
    host: Option<&[u8]>,
    uri: UriParts,
    r: (ProxyRequest, ProxyStep<R, E>),
)
    requires
        call_ensures(ProxyService::<D, C>::handle::<R, E>, (&service, host, uri), r),
    ensures
        r.0.uri == uri,
        host is None ==> {
            &&& r.0.stage is Finished
            &&& r.1 is RespondEmpty && r.1->status == 404
        },
        host is Some && utf8::valid_utf8(host->0@) ==> {
            &&& r.0.stage is LookingUp
            &&& r.1 is LookUp && utf8::encode_utf8(r.1->host@) == host->0@
        },
        host is Some && !utf8::valid_utf8(host->0@) ==> {
            &&& r.0.stage is Finished
            &&& r.1 is Fail && r.1->Fail_0 is InvalidHost
        },
{
    if host is Some && utf8::valid_utf8(host->0@) {
        utf8::decode_utf8_encode_utf8(host->0@);
    }
}

/// A request is sent on to the address of its route, over HTTP, with the path and the query that it
/// asked for, character for character; it is answered with what the backend responds; without a route
/// it is answered that nothing was found; a failure ends it with that failure; and what it does not
/// wait for changes nothing.
pub proof fn law_request_follows_the_replies<R, E>(
    request: &mut ProxyRequest,
    reply: ProxyReply<R, E>,
    step: Option<ProxyStep<R, E>>,
)
    requires
        call_ensures(ProxyRequest::step::<R, E>, (request, reply), step),
    ensures
        final(request).uri == old(request).uri,
        match (old(request).stage, reply) {
            (ProxyStage::LookingUp, ProxyReply::Route(Ok(Some(address)))) => {
                &&& is_host_with_port(address@) && old(request).uri.path_and_query is Some ==> step
                    is Some && step->0 is Forward
                &&& step is Some && step->0 is Forward <==> proxy::parsed_authority(address@) is Some
                    && old(request).uri.path_and_query is Some
                &&& step is Some && step->0 is Forward ==> {
                    &&& final(request).stage is Forwarding
                    &&& step->0->uri.scheme is Some && step->0->uri.scheme->0@ == "http"@
                    &&& step->0->uri.authority is Some && step->0->uri.authority->0@ == address@
                    &&& step->0->uri.path_and_query is Some
                    &&& step->0->uri.path_and_query->0@.len()
                        == old(request).uri.path_and_query->0@.len()
                    &&& forall|i: int|
                        0 <= i < old(request).uri.path_and_query->0@.len()
                            ==> #[trigger] step->0->uri.path_and_query->0@[i] == old(
                            request,
                        ).uri.path_and_query->0@[i]
                }
                &&& !(step is Some && step->0 is Forward) ==> {
                    &&& final(request).stage is Finished
                    &&& step is Some && step->0 is Fail && step->0->Fail_0 is Rewrite
                }
            },
            (ProxyStage::LookingUp, ProxyReply::Route(Ok(None))) => {
                &&& final(request).stage is Finished
                &&& step is Some && step->0 is RespondEmpty && step->0->status == 404
            },
            (ProxyStage::LookingUp, ProxyReply::Route(Err(error))) => {
                &&& final(request).stage is Finished
                &&& step == Some(ProxyStep::Fail::<R, E>(ProxyError::Lookup(error)))
            },
            (ProxyStage::Forwarding, ProxyReply::Response(Ok(response))) => {
                &&& final(request).stage is Finished
                &&& step == Some(ProxyStep::Respond::<R, E>(response))
            },
            (ProxyStage::Forwarding, ProxyReply::Response(Err(error))) => {
                &&& final(request).stage is Finished
                &&& step == Some(ProxyStep::Fail::<R, E>(ProxyError::Upstream(error)))
            },
            _ => final(request).stage == old(request).stage && step is None,
        },
{
    if let ProxyReply::Route(Ok(Some(address))) = reply {
        if is_host_with_port(address@) {
            lemma_host_with_port(address@);
        }
    }
}

/// The services that a maker makes have copies of the routes and of the client that it was made with.
pub proof fn law_services_share_routes_and_client<D: Clone, C: Clone>(
    db: D,
    client: C,
    maker: MakeProxyService<D, C>,
    service: ProxyService<D, C>,
)
    requires
        call_ensures(MakeProxyService::<D, C>::new, (db, client), maker),
        call_ensures(MakeProxyService::<D, C>::call, (&maker,), service),
    ensures
        cloned(db, service.db),
        cloned(client, service.client),
{
}

/// A copy of a service has copies of its routes and of its client.
pub proof fn law_copy_of_a_service<D: Clone, C: Clone>(
    service: ProxyService<D, C>,
    copy: ProxyService<D, C>,
)
    requires
        call_ensures(<ProxyService<D, C> as Clone>::clone, (&service,), copy),
    ensures
        cloned(service.db, copy.db),
        cloned(service.client, copy.client),
{
}

/// To replace the authority of a URI is to set its scheme to HTTP and its authority to the given one,
/// and to keep its path and its query; it is done exactly if there is a path.
pub proof fn law_replacing_the_authority_keeps_path_and_query(
    uri: UriParts,
    authority: String,
    r: Result<UriParts, UriPartsError>,
)
    requires
        call_ensures(UriParts::with_authority, (&uri, authority), r),
    ensures
        r is Ok <==> uri.path_and_query is Some,
        r is Ok ==> {
            &&& r->Ok_0.scheme is Some && r->Ok_0.scheme->0@ == "http"@
            &&& r->Ok_0.authority is Some && r->Ok_0.authority->0@ == authority@
            &&& r->Ok_0.path_and_query is Some
            &&& r->Ok_0.path_and_query->0@ == uri.path_and_query->0@
        },
        r is Err ==> r->Err_0 is PathAndQueryMissing,
{
}

} // verus!
