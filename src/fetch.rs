use vstd::prelude::*;

verus! {

/// How a call to the upstream service ended: it failed before any answer
/// (no connection, a timeout, a missing credential), or it was answered with
/// a status code and a body that decoded as expected, or not.
pub enum Fetch<T> {
    Failed,
    Responded { status: u16, body: Option<T> },
}

/// A status code of the success class.
pub open spec fn is_success(status: u16) -> bool {
    200 <= status && status < 300
}

/// The body of a call that succeeded and decoded; none otherwise.
pub open spec fn fetched<T>(f: Fetch<T>) -> Option<T> {
    match f {
        Fetch::Responded { status, body } => if is_success(status) {
            body
        } else {
            None
        },
        Fetch::Failed => None,
    }
}

/// Whether a status code is of the success class.
pub fn success_status(status: u16) -> (r: bool)
    ensures
        r == is_success(status),
{
    200 <= status && status < 300
}

/// The body of a call that succeeded and decoded.
pub fn into_body<T>(f: Fetch<T>) -> (r: Option<T>)
    ensures
        r == fetched(f),
{
    match f {
        Fetch::Responded { status, body } => if success_status(status) {
            body
        } else {
            None
        },
        Fetch::Failed => None,
    }
}

} // verus!
