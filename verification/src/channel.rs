//! The outbound action channel handle, declared for the verifier.

use tokio::sync::mpsc::UnboundedSender;
use vstd::prelude::*;

verus! {

/// Relies on tokio's `sync::mpsc::UnboundedSender`: the home screen only
/// stores this handle for later use by the host; it never sends through it,
/// so nothing is assumed of its behaviour.
#[verifier::external_type_specification]
#[verifier::external_body]
#[verifier::reject_recursive_types(T)]
pub struct ExUnboundedSender<T>(UnboundedSender<T>);

} // verus!
