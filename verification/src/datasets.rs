//! The datasets that the library knows.

use vstd::prelude::*;
use crate::registry::{ProviderView, Registry};

pub mod download;

verus! {

/// The providers of the datasets that are known from the start, in the order
/// of their registration.
pub open spec fn known_providers() -> Seq<ProviderView> {
    seq![download::diabetes::provider_view()]
}

/// The registry of the datasets that are known from the start.
pub fn registry() -> (r: Registry)
    ensures
        r@ == known_providers(),
{
    let mut registry = Registry::new();
    let added = registry.register(download::diabetes::provider());
    registry
}

} // verus!
