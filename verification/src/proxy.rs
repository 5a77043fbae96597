//! What the router sends and what it answers: the request that goes to the
//! chosen backend, and the reply that the caller gets once the backend has
//! responded, has failed or has run out of time.

use crate::config::METRICS_URL;
use crate::routing::{backend_url, decision_for, select_backend, url_of};
use crate::state::MetricsState;
use std::str::FromStr;
use vstd::prelude::*;

verus! {

/// One header field of a request.
#[derive(Debug, PartialEq, Eq)]
pub struct Header {
    pub name: String,
    pub value: Vec<u8>,
}

pub struct HeaderView {
    pub name: Seq<char>,
    pub value: Seq<u8>,
}

impl View for Header {
    type V = HeaderView;

    open spec fn view(&self) -> HeaderView {
        HeaderView { name: self.name@, value: self.value@ }
    }
}

/// A request as far as it is forwarded: its method, its header fields in
/// their order, and its whole body. The path and the query of a request that
/// came in are no part of it.
#[derive(Debug, PartialEq, Eq)]
pub struct Request {
    pub method: String,
    pub headers: Vec<Header>,
    pub body: Vec<u8>,
}

pub struct RequestView {
    pub method: Seq<char>,
    pub headers: Seq<HeaderView>,
    pub body: Seq<u8>,
}

impl View for Request {
    type V = RequestView;

    open spec fn view(&self) -> RequestView {
        RequestView {
            method: self.method@,
            headers: self.headers@.map_values(|header: Header| header@),
            body: self.body@,
        }
    }
}

/// A request on its way out: where it goes and what it carries.
#[derive(Debug, PartialEq, Eq)]
pub struct OutboundRequest {
    pub url: String,
    pub request: Request,
}

pub struct OutboundView {
    pub url: Seq<char>,
    pub request: RequestView,
}

impl View for OutboundRequest {
    type V = OutboundView;

    open spec fn view(&self) -> OutboundView {
        OutboundView { url: self.url@, request: self.request@ }
    }
}

/// Why no request went out.
#[derive(Clone, Copy, Debug, PartialEq, Eq)]
pub enum RouteError {
    /// The target is no URI, so that no outbound request can be made.
    RequestConstruction,
}

/// Whether hyper's `Uri` parser accepts `url`.
pub uninterp spec fn uri_accepted(url: Seq<char>) -> bool;

/// Calls `hyper::Uri::from_str` and says whether it returned a URI. The
/// contract only names the result.
#[verifier::external_body]
fn parses_as_uri(url: &str) -> (accepted: bool)
    ensures
        accepted == uri_accepted(url@),
{
    hyper::Uri::from_str(url).is_ok()
}

/// The request that goes to `url` for `request`, given whether `url` was
/// accepted as a URI: the same method, header fields and body, or an error
/// where the target was refused.
pub open spec fn outbound_for(url: Seq<char>, request: RequestView, accepted: bool) -> Result<
    OutboundView,
    RouteError,
> {
    if accepted {
        Ok(OutboundView { url, request })
    } else {
        Err(RouteError::RequestConstruction)
    }
}

/// The view of what `outbound_request` and its kin return.
pub open spec fn outbound_view(result: Result<OutboundRequest, RouteError>) -> Result<
    OutboundView,
    RouteError,
> {
    match result {
        Ok(outbound) => Ok(outbound@),
        Err(error) => Err(error),
    }
}

/// Puts `request` on its way to `url`, where `accepted` says that `url` is a
/// URI. Method, header fields and body go out as they came in.
pub fn forward(url: &str, request: Request, accepted: bool) -> (result: Result<
    OutboundRequest,
    RouteError,
>)
    ensures
        outbound_view(result) == outbound_for(url@, request@, accepted),
{
    if accepted {
        Ok(OutboundRequest { url: url.to_owned(), request })
    } else {
        Err(RouteError::RequestConstruction)
    }
}

/// Puts `request` on its way to `url`, if `url` is a URI.
pub fn outbound_request(url: &str, request: Request) -> (result: Result<
    OutboundRequest,
    RouteError,
>)
    ensures
        outbound_view(result) == outbound_for(url@, request@, uri_accepted(url@)),
{
    let accepted = parses_as_uri(url);
    forward(url, request, accepted)
}

/// Routes one request: chooses the backend from `state` and forwards the
/// request to the generation endpoint of that backend, with its method, its
/// header fields and its body unchanged.
pub fn route_request(state: &MetricsState, request: Request) -> (result: Result<
    OutboundRequest,
    RouteError,
>)
    ensures
        outbound_view(result) == outbound_for(
            url_of(decision_for(*state)),
            request@,
            uri_accepted(url_of(decision_for(*state))),
        ),
        result matches Ok(outbound) ==> outbound@.url == url_of(decision_for(*state))
            && outbound@.request == request@,
{
    let decision = select_backend(state);
    outbound_request(backend_url(decision), request)
}

/// The request that fetches the metrics document.
pub open spec fn metrics_request_view() -> RequestView {
    RequestView { method: "GET"@, headers: Seq::empty(), body: Seq::empty() }
}

/// Makes the request that fetches the metrics document: a GET of the metrics
/// endpoint with no header field and no body.
pub fn metrics_request() -> (result: Result<OutboundRequest, RouteError>)
    ensures
        outbound_view(result) == outbound_for(
            METRICS_URL@,
            metrics_request_view(),
            uri_accepted(METRICS_URL@),
        ),
{
    let request = Request { method: "GET".to_owned(), headers: Vec::new(), body: Vec::new() };
    assert(request@.headers =~= Seq::<HeaderView>::empty());
    outbound_request(METRICS_URL, request)
}

/// The status of the reply to a request whose backend ran out of time.
pub const GATEWAY_TIMEOUT: u16 = 504;

/// The body of that reply, a plain text.
pub const TIMEOUT_BODY: &'static str = "Backend timeout";

/// How the call of a backend ended.
#[derive(Debug, PartialEq, Eq)]
pub enum BackendOutcome<R, E> {
    /// The backend responded.
    Responded(R),
    /// No response came within the time allowed.
    TimedOut,
    /// The call failed for another reason.
    Failed(E),
}

/// A response that the router makes up itself.
#[derive(Clone, Copy, Debug, PartialEq, Eq)]
pub struct SyntheticResponse {
    pub status: u16,
    pub body: &'static str,
}

/// What the caller gets in answer.
#[derive(Debug, PartialEq, Eq)]
pub enum ProxyReply<R> {
    /// The response of the backend, as it came.
    Relayed(R),
    /// A response of the router's own.
    Synthesized(SyntheticResponse),
}

/// The answer to a request whose backend call ended in `outcome`: the response
/// of the backend itself, a 504 with a short text where the backend ran out of
/// time, and the failure itself where the call failed otherwise.
pub open spec fn reply_for<R, E>(outcome: BackendOutcome<R, E>) -> Result<ProxyReply<R>, E> {
    match outcome {
        BackendOutcome::Responded(response) => Ok(ProxyReply::Relayed(response)),
        BackendOutcome::TimedOut => Ok(
            ProxyReply::Synthesized(
                SyntheticResponse { status: GATEWAY_TIMEOUT, body: TIMEOUT_BODY },
            ),
        ),
        BackendOutcome::Failed(error) => Err(error),
    }
}

/// Turns the end of a backend call into the answer for the caller.
pub fn conclude<R, E>(outcome: BackendOutcome<R, E>) -> (result: Result<ProxyReply<R>, E>)
    ensures
        result == reply_for(outcome),
{
    match outcome {
        BackendOutcome::Responded(response) => Ok(ProxyReply::Relayed(response)),
        BackendOutcome::TimedOut => Ok(
            ProxyReply::Synthesized(
                SyntheticResponse { status: GATEWAY_TIMEOUT, body: TIMEOUT_BODY },
            ),
        ),
        BackendOutcome::Failed(error) => Err(error),
    }
}

} // verus!
