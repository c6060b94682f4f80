//! Values fixed for every deployment.

use vstd::prelude::*;

verus! {

/// The subject id of the root identity. The store numbers accounts from one,
/// so no stored user ever has it.
pub const ROOT_USER_ID: i32 = 0;

} // verus!
