//! Types of `twilight_model` that a command definition carries.

use vstd::prelude::*;

verus! {

/// `twilight_model::guild::Permissions`, a bit set of Discord permissions.
///
/// The type is opaque here: a command definition stores a value of it and
/// hands it back unchanged, and no contract says anything about its bits.
#[verifier::external_type_specification]
#[verifier::external_body]
pub struct ExPermissions(twilight_model::guild::Permissions);

} // verus!
