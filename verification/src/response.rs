use vstd::prelude::*;

verus! {

/// One HTTP response as the library shapes it: the status code to send
/// and the body text, which every route but the root serves as JSON.
pub struct HttpResponse {
    pub status: u16,
    pub body: String,
}

} // verus!
