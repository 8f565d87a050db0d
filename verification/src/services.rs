//! The description of an outgoing HTTP request, handed to whoever performs
//! the call.

use crate::types::Method;
use vstd::prelude::*;

verus! {

pub const CONTENT_TYPE: &'static str = "Content-Type";

pub const X_ROUTER: &'static str = "X-Router";

pub const X_API_KEY: &'static str = "X-Api-Key";

/// An outgoing request: method, URL, headers in order, and the body if any.
#[derive(Debug, PartialEq, Eq)]
pub struct Request {
    pub method: Method,
    pub url: String,
    pub headers: Vec<(String, String)>,
    pub body: Option<String>,
}

impl Request {
    /// A request to `url` by `method`, with no header and no body yet.
    pub fn new(method: Method, url: &str) -> (r: Self)
        ensures
            r.method == method,
            r.url@ == url@,
            r.headers@ == Seq::<(String, String)>::empty(),
            r.body is None,
    {
        Request { method, url: crate::json::text(url), headers: Vec::new(), body: None }
    }

    /// Adds one header behind those already there.
    pub fn add_header(&mut self, header: &str, value: &str)
        ensures
            final(self).method == old(self).method,
            final(self).url == old(self).url,
            final(self).body == old(self).body,
            final(self).headers@.len() == old(self).headers@.len() + 1,
            final(self).headers@.drop_last() == old(self).headers@,
            final(self).headers@.last().0@ == header@,
            final(self).headers@.last().1@ == value@,
    {
        self.headers.push((crate::json::text(header), crate::json::text(value)));
        assert(self.headers@.drop_last() =~= old(self).headers@);
    }

    /// Sets the body, replacing an earlier one.
    pub fn set_body(&mut self, body: String)
        ensures
            final(self).method == old(self).method,
            final(self).url == old(self).url,
            final(self).headers == old(self).headers,
            final(self).body == Some(body),
    {
        self.body = Some(body);
    }
}

} // verus!
