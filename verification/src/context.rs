//! Request-time information that the host hands to a policy check.

use vstd::prelude::*;

verus! {

/// The typed view of the requester context that this policy extracts:
/// the identity (e-mail address) of the user asking to see the value.
pub struct ContextData {
    pub user_email: String,
}

impl View for ContextData {
    type V = Seq<char>;

    open spec fn view(&self) -> Seq<char> {
        self.user_email@
    }
}

/// A descriptor of why an access check is being performed. The decision
/// never depends on it: the same answer is returned for every reason.
pub struct Reason {
    pub description: String,
}

} // verus!
