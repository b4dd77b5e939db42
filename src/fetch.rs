use vstd::prelude::*;

use crate::method::{method_of, unsupported_method_message, Method};

verus! {

/// What the front end asks for: a method name, headers given as name and value,
/// and an optional body.
pub struct FetchOptions {
    pub method: String,
    pub headers: Vec<(String, String)>,
    pub body: Option<String>,
}

/// A request ready to be sent: the verb, the target, every header to set, in
/// order, and the body, if there is one.
pub struct FetchRequest {
    pub method: Method,
    pub url: String,
    pub headers: Vec<(String, String)>,
    pub body: Option<String>,
}

/// Builds the request for a fetch. The method name must be one of the four
/// supported verbs; the headers and the body are taken over unchanged, with no
/// check on header names or values.
pub fn prepare_fetch(url: String, options: FetchOptions) -> (r: Result<FetchRequest, String>)
    ensures
        method_of(options.method@) is None ==> (r matches Err(e) && e@
            == unsupported_method_message()),
        method_of(options.method@) matches Some(m) ==> (r matches Ok(req) && req.method == m
            && req.url@ == url@ && req.headers@ == options.headers@ && req.body == options.body),
{
    let method = match Method::from_name(&options.method) {
        Ok(m) => m,
        Err(e) => {
            return Err(e);
        },
    };
    Ok(FetchRequest { method, url, headers: options.headers, body: options.body })
}

} // verus!
