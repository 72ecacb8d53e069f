//! Fresh identifiers for documents, batches and points.

use vstd::prelude::*;

verus! {

/// A fresh random identifier. Trusted: calls `uuid::Uuid::new_v4` and renders
/// the result with its `Display` impl. The identifier is random, so nothing
/// is claimed of it.
#[verifier::external_body]
pub(crate) fn fresh_id() -> String {
    uuid::Uuid::new_v4().to_string()
}

} // verus!
