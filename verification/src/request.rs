use vstd::prelude::*;

verus! {

/// The uniform envelope of every answer: a payload and the status code that
/// the HTTP status line mirrors.
pub struct Response<T> where T: Send {
    pub response: T,
    pub status_code: u16,
}

impl<T> Response<T> where T: Send {
    /// Wraps a payload and a status code.
    pub fn new(response: T, status_code: u16) -> (r: Self)
        ensures
            r.response == response,
            r.status_code == status_code,
    {
        Response { response, status_code }
    }

    /// What goes over the wire for this envelope: its status code and its
    /// serialised form as the body, or status 500 and no body where it
    /// could not be serialised (`None`).
    pub fn respond_to(&self, serialized: Option<String>) -> (wire: (u16, Option<String>))
        ensures
            wire.1 == serialized,
            wire.0 == (if serialized is Some { self.status_code } else { 500u16 }),
    {
        match serialized {
            Some(body) => (self.status_code, Some(body)),
            None => (500, None),
        }
    }
}

} // verus!
