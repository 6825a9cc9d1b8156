//! The stage that marks every response with `X-Clacks-Overhead`.

use vstd::prelude::*;
use crate::context::{is_set, Response};

verus! {

/// `after` is `before` with the header `X-Clacks-Overhead` set and nothing
/// else changed.
pub open spec fn overhead_added(before: Response, after: Response) -> bool {
    &&& is_set(
        before.headers.entries@,
        after.headers.entries@,
        "X-Clacks-Overhead"@,
        "GNU/Terry Pratchett"@,
    )
    &&& after.status == before.status
    &&& after.body == before.body
    &&& after.body_size == before.body_size
    &&& after.error == before.error
    &&& after.correlation_id == before.correlation_id
}

/// Adds a clacks overhead header to every outgoing response.
#[derive(Debug, Clone, Copy)]
pub struct ClacksMiddleware {
    _priv: (),
}

impl Default for ClacksMiddleware {
    fn default() -> (r: Self)
        ensures
            r == ClacksMiddleware::new(),
    {
        ClacksMiddleware::new()
    }
}

impl ClacksMiddleware {
    /// A clacks stage.
    #[must_use]
    #[verifier::when_used_as_spec(spec_new)]
    pub fn new() -> (r: Self)
        ensures
            r == Self::spec_new(),
    {
        ClacksMiddleware { _priv: () }
    }

    /// The one value of this type.
    pub closed spec fn spec_new() -> Self {
        ClacksMiddleware { _priv: () }
    }

    /// Lets a response out with the header `X-Clacks-Overhead` set.
    pub fn on_response(&self, res: &mut Response)
        ensures
            overhead_added(*old(res), *final(res)),
    {
        res.headers.insert("X-Clacks-Overhead", "GNU/Terry Pratchett");
    }
}

} // verus!
