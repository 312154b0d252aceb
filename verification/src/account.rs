//! Account identifiers.

use vstd::prelude::*;

verus! {

/// The name of a participant, as the host issued it. The registry does not
/// look into it: two identifiers are the same when their texts are.
pub type AccountId = String;

} // verus!
