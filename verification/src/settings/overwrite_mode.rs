//! How to handle a transfer whose destination already exists.

use vstd::prelude::*;

verus! {

/// Ask the user each time.
pub const ASK: &'static str = "ask";

/// Replace the existing file.
pub const OVERWRITE: &'static str = "overwrite";

/// Leave the existing file and do not transfer.
pub const SKIP: &'static str = "skip";

/// Transfer under a new name.
pub const RENAME: &'static str = "rename";

} // verus!
