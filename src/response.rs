use vstd::prelude::*;

verus! {

/// Whether an HTTP status code is in the success range, 200 to 299.
pub open spec fn spec_is_success(status: u16) -> bool {
    200 <= status < 300
}

/// The answer handed back to the front end: a success flag, the status code
/// and the body as text.
pub struct FetchResponse {
    pub ok: bool,
    pub status: u16,
    pub body: String,
}

impl FetchResponse {
    /// The success flag agrees with the status code.
    pub open spec fn wf(&self) -> bool {
        self.ok == spec_is_success(self.status)
    }

    /// The response for a status code and a body.
    pub fn new(status: u16, body: String) -> (r: FetchResponse)
        ensures
            r.status == status,
            r.body == body,
            r.ok == spec_is_success(status),
            r.wf(),
    {
        FetchResponse { ok: is_success(status), status, body }
    }
}

/// Whether an HTTP status code is in the success range, 200 to 299.
pub fn is_success(status: u16) -> (r: bool)
    ensures
        r == spec_is_success(status),
{
    200 <= status && status < 300
}

/// Turns what came back from the server (the status code, and the body or the
/// error met while reading it) into the answer for the front end. An error is
/// passed on as it is, and no response is made.
pub fn finish_response(status: u16, body: Result<String, String>) -> (r: Result<
    FetchResponse,
    String,
>)
    ensures
        body matches Ok(b) ==> (r matches Ok(resp) && resp.status == status && resp.body == b
            && resp.ok == spec_is_success(status)),
        body matches Err(e) ==> r == Err::<FetchResponse, String>(e),
        r matches Ok(resp) ==> resp.wf(),
{
    match body {
        Ok(b) => Ok(FetchResponse::new(status, b)),
        Err(e) => Err(e),
    }
}

/// A response is marked successful exactly when its status code is in the
/// range 200 to 299.
pub proof fn lemma_ok_iff_success_range(r: FetchResponse)
    requires
        r.wf(),
    ensures
        r.ok <==> (200 <= r.status && r.status <= 299),
{
}

} // verus!
