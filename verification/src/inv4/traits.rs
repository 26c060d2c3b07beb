//! What a set of permissions must offer.

use vstd::prelude::*;
use crate::dispatch::DispatchError;

verus! {

/// Decides which calls an identity lets through.
pub trait Permissions {
    type Id;

    type Call;

    /// Whether the permissions of `id` let `call` through.
    fn check_permission(&self, id: Self::Id, call: Box<Self::Call>) -> Result<bool, DispatchError>;

    /// Gives `id` a set of permissions to start from.
    fn initialize_permission_set(&mut self, id: Self::Id) -> Result<(), DispatchError>;
}

} // verus!
