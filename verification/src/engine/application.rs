//! What an application is handed when it is created.

use vstd::prelude::*;

verus! {

/// The context an application is created in. It carries nothing yet.
pub struct ApplicationContext {}

} // verus!
