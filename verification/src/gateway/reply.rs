//! A refused request: the status code and the message of the error body.
use vstd::prelude::*;
use crate::text::own;

verus! {

/// The gateway's answer to a request it refuses: an HTTP status code and the
/// error message that the JSON body carries.
#[derive(Debug)]
pub struct Rejection {
    pub status: u16,
    pub message: String,
}

pub open spec fn rejects(r: Rejection, status: u16, message: Seq<char>) -> bool {
    r.status == status && r.message@ == message
}

impl Rejection {
    pub fn new(status: u16, message: &str) -> (r: Self)
        ensures
            rejects(r, status, message@),
    {
        Rejection { status, message: own(message) }
    }
}

} // verus!
