//! Request metadata: an immutable snapshot of the request fields that a span
//! is annotated with, taken once per request.

use vstd::prelude::*;

use crate::forwarded::client_ip_of;
use crate::forwarded::parse_x_forwarded_for;
use crate::headers::{header_value, Headers};

verus! {

/// What the middleware reads from an inbound request: its line and the header
/// collection. `scheme` is `None` when the request URL carries no scheme.
pub struct RequestHead {
    pub method: String,
    pub path: String,
    pub url: String,
    pub version: String,
    pub scheme: Option<String>,
    pub headers: Headers,
}

/// The mathematical value of a metadata snapshot.
pub struct RequestMetaView {
    pub method: Seq<char>,
    pub path: Seq<char>,
    pub url: Seq<char>,
    pub version: Seq<char>,
    pub user_agent: Seq<char>,
    pub host: Seq<char>,
    pub scheme: Seq<char>,
    pub client_ip: Seq<char>,
}

/// The metadata snapshot: every field resolved to a definite string, with
/// absent headers as the empty string and an absent scheme as `"http"`.
pub struct RequestMeta {
    pub method: String,
    pub path: String,
    pub url: String,
    pub version: String,
    pub user_agent: String,
    pub host: String,
    pub scheme: String,
    pub client_ip: String,
}

impl View for RequestMeta {
    type V = RequestMetaView;

    open spec fn view(&self) -> RequestMetaView {
        RequestMetaView {
            method: self.method@,
            path: self.path@,
            url: self.url@,
            version: self.version@,
            user_agent: self.user_agent@,
            host: self.host@,
            scheme: self.scheme@,
            client_ip: self.client_ip@,
        }
    }
}

/// The text of a header that may be absent or non-text, resolved to a string.
pub open spec fn text_or_empty(v: Option<Seq<char>>) -> Seq<char> {
    match v {
        Some(s) => s,
        None => Seq::empty(),
    }
}

/// The metadata a request head resolves to.
pub open spec fn meta_of(
    method: Seq<char>,
    path: Seq<char>,
    url: Seq<char>,
    version: Seq<char>,
    scheme: Option<Seq<char>>,
    hs: Seq<crate::headers::HeaderView>,
) -> RequestMetaView {
    RequestMetaView {
        method: method,
        path: path,
        url: url,
        version: version,
        user_agent: text_or_empty(header_value(hs, "user-agent"@)),
        host: text_or_empty(header_value(hs, "host"@)),
        scheme: match scheme {
            Some(s) => s,
            None => "http"@,
        },
        client_ip: match header_value(hs, "X-Forwarded-For"@) {
            Some(v) => client_ip_of(v),
            None => Seq::empty(),
        },
    }
}

/// Take the metadata snapshot of a request head. Never fails: absent headers
/// yield empty strings and an absent scheme yields `"http"`.
pub fn extract_metadata(head: &RequestHead) -> (m: RequestMeta)
    ensures
        m@ == meta_of(
            head.method@,
            head.path@,
            head.url@,
            head.version@,
            head.scheme.deep_view(),
            head.headers@,
        ),
{
    let user_agent = match head.headers.get_text("user-agent") {
        Some(s) => s,
        None => String::new(),
    };
    let host = match head.headers.get_text("host") {
        Some(s) => s,
        None => String::new(),
    };
    let scheme = match &head.scheme {
        Some(s) => s.clone(),
        None => "http".to_owned(),
    };
    let client_ip = match parse_x_forwarded_for(&head.headers) {
        Some(ip) => ip,
        None => String::new(),
    };
    RequestMeta {
        method: head.method.clone(),
        path: head.path.clone(),
        url: head.url.clone(),
        version: head.version.clone(),
        user_agent,
        host,
        scheme,
        client_ip,
    }
}

} // verus!
