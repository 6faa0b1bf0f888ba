//! The flag by which a running parse is asked to stop.

use vstd::prelude::*;

verus! {

/// A request to stop, raised at most once and never taken back. A new parse
/// gets a new token.
#[derive(Debug)]
pub struct CancellationToken {
    raised: bool,
}

impl CancellationToken {
    /// Whether the request was raised.
    pub closed spec fn raised(&self) -> bool {
        self.raised
    }

    /// A token on which nothing was raised.
    pub fn new() -> (token: CancellationToken)
        ensures
            !token.raised(),
    {
        CancellationToken { raised: false }
    }

    /// Raises the request. Raising it again changes nothing.
    pub fn set(&mut self)
        ensures
            final(self).raised(),
    {
        self.raised = true;
    }

    /// Whether the request was raised.
    pub fn is_set(&self) -> (r: bool)
        ensures
            r == self.raised(),
    {
        self.raised
    }
}

} // verus!
