//! Provider-agnostic questions about a model error.

use vstd::prelude::*;

verus! {

/// What went wrong with a provider call, in terms that do not depend on the adapter.
pub trait ProviderError {
    /// Whether the prompt did not fit the model's context window. Such a call fails again
    /// unchanged, but a caller that owns the history can shrink it and try again. An adapter that
    /// cannot tell says no.
    fn is_context_overflow(&self) -> (r: bool)
        default_ensures
            !r,
    {
        false
    }
}

} // verus!
