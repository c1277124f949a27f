//! What goes to the provider and what comes back, as plain data: the request
//! to post, the reply to it, the address of an endpoint and the route to the
//! provider. Sending is the host's part.

use vstd::prelude::*;
use crate::body::{json_document, BodyView, ProviderBody};
use crate::text::join;

verus! {

/// One form field of a request.
#[derive(Clone, Debug, PartialEq, Eq)]
pub struct Field {
    pub name: String,
    pub value: String,
}

impl View for Field {
    type V = (Seq<char>, Seq<char>);

    open spec fn view(&self) -> (Seq<char>, Seq<char>) {
        (self.name@, self.value@)
    }
}

impl Field {
    pub fn new(name: &str, value: &str) -> (field: Field)
        ensures
            field@ == (name@, value@),
    {
        Field { name: String::from_str(name), value: String::from_str(value) }
    }
}

/// A form to post to one endpoint of the provider.
#[derive(Clone, Debug, PartialEq, Eq)]
pub struct Request {
    /// The endpoint, relative to the provider's base address.
    pub endpoint: String,
    /// The form fields, in the order in which they are sent.
    pub fields: Vec<Field>,
    /// Whether a refusal by the provider is to be logged as an error.
    pub escalate: bool,
}

pub ghost struct RequestView {
    pub endpoint: Seq<char>,
    pub fields: Seq<(Seq<char>, Seq<char>)>,
    pub escalate: bool,
}

impl View for Request {
    type V = RequestView;

    open spec fn view(&self) -> RequestView {
        RequestView {
            endpoint: self.endpoint@,
            fields: self.fields@.map_values(|f: Field| f@),
            escalate: self.escalate,
        }
    }
}

impl RequestView {
    /// The value of the first field of that name, if there is one.
    pub open spec fn value_of(self, name: Seq<char>) -> Option<Seq<char>>
        decreases self.fields.len(),
    {
        if self.fields.len() == 0 {
            None
        } else if self.fields[0].0 == name {
            Some(self.fields[0].1)
        } else {
            (RequestView { fields: self.fields.drop_first(), ..self }).value_of(name)
        }
    }

    /// Whether a reply with this status is logged as an error rather than as
    /// a diagnostic line.
    pub open spec fn logs_as_error(self, success: bool) -> bool {
        self.escalate && !success
    }
}

impl Request {
    /// A request without fields.
    pub fn new(endpoint: &str, escalate: bool) -> (request: Request)
        ensures
            request@ == (RequestView { endpoint: endpoint@, fields: Seq::empty(), escalate }),
    {
        let request = Request { endpoint: String::from_str(endpoint), fields: Vec::new(), escalate };
        assert(request@.fields =~= Seq::empty());
        request
    }

    /// Adds a field after those that are there.
    pub fn push(&mut self, name: &str, value: &str)
        ensures
            final(self)@ == (RequestView {
                fields: old(self)@.fields.push((name@, value@)),
                ..old(self)@
            }),
    {
        self.fields.push(Field::new(name, value));
        assert(self@.fields =~= old(self)@.fields.push((name@, value@)));
    }

    /// Whether a reply with this status is logged as an error rather than as
    /// a diagnostic line.
    pub fn logs_as_error(&self, success: bool) -> (as_error: bool)
        ensures
            as_error == self@.logs_as_error(success),
    {
        self.escalate && !success
    }
}

/// The address of an endpoint on a provider host.
pub open spec fn endpoint_address(host: Seq<char>, endpoint: Seq<char>) -> Seq<char> {
    "https://"@ + host + "/oauth2/v1/"@ + endpoint
}

/// The address to post to for an endpoint of the provider at `host`.
pub fn endpoint_url(host: &str, endpoint: &str) -> (url: String)
    ensures
        url@ == endpoint_address(host@, endpoint@),
{
    let mut url = join("https://", host);
    url.append("/oauth2/v1/");
    url.append(endpoint);
    url
}

/// What came of posting a request.
#[derive(Clone, Debug, PartialEq, Eq)]
pub enum Reply {
    /// No response at all: the transport failed.
    Unreachable,
    /// A response. `success` says whether its status was a success; `body` is
    /// there where the response body could be read as JSON.
    Answered { success: bool, body: Option<ProviderBody> },
}

pub ghost enum ReplyView {
    Unreachable,
    Answered { success: bool, body: Option<BodyView> },
}

impl View for Reply {
    type V = ReplyView;

    open spec fn view(&self) -> ReplyView {
        match self {
            Reply::Unreachable => ReplyView::Unreachable,
            Reply::Answered { success, body } => ReplyView::Answered {
                success: *success,
                body: match body {
                    Some(b) => Some(b@),
                    None => None,
                },
            },
        }
    }
}

impl ReplyView {
    /// The reply that a response with this status and body text is. A body
    /// that could not be had, or that is not JSON, counts as no body; the
    /// status is kept either way.
    pub open spec fn of_response(success: bool, text: Option<Seq<char>>) -> ReplyView {
        ReplyView::Answered {
            success,
            body: match text {
                Some(t) => match json_document(t) {
                    Some(document) => Some(BodyView::of(document)),
                    None => None,
                },
                None => None,
            },
        }
    }
}

impl Reply {
    /// The reply for a response whose status and body text the host has read.
    /// `text` is `None` where the body could not be read as text.
    pub fn from_response(success: bool, text: Option<&str>) -> (reply: Reply)
        ensures
            reply@ == ReplyView::of_response(
                success,
                match text {
                    Some(t) => Some(t@),
                    None => None,
                },
            ),
    {
        let body = match text {
            Some(t) => ProviderBody::decode(t),
            None => None,
        };
        Reply::Answered { success, body }
    }
}

/// Whether `ureq::Proxy::new` accepts a text as the address of a proxy.
pub uninterp spec fn proxy_accepted(address: Seq<char>) -> bool;

/// Trusted: `ureq::Proxy::new`, of which only success or failure is kept. It
/// parses the text as a URI with a host and a known scheme, reads nothing
/// else, and reports what it cannot use as an error.
#[verifier::external_body]
fn proxy_parses(address: &str) -> (accepted: bool)
    ensures
        accepted == proxy_accepted(address@),
{
    ureq::Proxy::new(address).is_ok()
}

/// How the provider is reached.
#[derive(Clone, Debug, PartialEq, Eq)]
pub enum Route {
    /// Directly: no proxy is configured.
    Direct,
    /// Through the proxy at this address.
    Proxied(String),
    /// Directly, because the configured proxy address is unusable. Never
    /// fatal; the address is kept for the log.
    ProxyRejected(String),
}

pub ghost enum RouteView {
    Direct,
    Proxied(Seq<char>),
    ProxyRejected(Seq<char>),
}

impl View for Route {
    type V = RouteView;

    open spec fn view(&self) -> RouteView {
        match self {
            Route::Direct => RouteView::Direct,
            Route::Proxied(address) => RouteView::Proxied(address@),
            Route::ProxyRejected(address) => RouteView::ProxyRejected(address@),
        }
    }
}

impl RouteView {
    /// The route for a configured proxy address, given whether that address
    /// is accepted.
    pub open spec fn of(address: Seq<char>, accepted: bool) -> RouteView {
        if address.len() == 0 {
            RouteView::Direct
        } else if accepted {
            RouteView::Proxied(address)
        } else {
            RouteView::ProxyRejected(address)
        }
    }
}

impl Route {
    /// The route for a configured proxy address, once it is known whether
    /// the address is accepted.
    pub fn decide(address: &str, accepted: bool) -> (route: Route)
        ensures
            route@ == RouteView::of(address@, accepted),
    {
        if address.is_empty() {
            Route::Direct
        } else if accepted {
            Route::Proxied(String::from_str(address))
        } else {
            Route::ProxyRejected(String::from_str(address))
        }
    }

    /// The route for a configured proxy address. An empty address is not
    /// looked at.
    pub fn plan(address: &str) -> (route: Route)
        ensures
            route@ == RouteView::of(address@, proxy_accepted(address@)),
    {
        if address.is_empty() {
            Route::Direct
        } else {
            Route::decide(address, proxy_parses(address))
        }
    }
}

} // verus!
