//! Checker configuration.
//!
//! The option set is owned by an external settings collaborator; the checker
//! only carries a reference to it. No option changes the behavior of the
//! rules implemented at this snapshot.

use vstd::prelude::*;

verus! {

/// Configuration handed to the checker by its caller.
pub struct Settings {
    /// Whether the caller wants verbose debugging output; not read by the
    /// checking pass itself.
    pub debug: bool,
}

} // verus!
