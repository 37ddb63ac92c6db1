//! The OS family, chosen once at startup by the surrounding application.
//! It selects the resolver parsing strategy, the permission phrases of the
//! termination diagnostics, and the elevation advice.

use vstd::prelude::*;

verus! {

#[derive(Clone, Copy, Debug, PartialEq, Eq, Structural)]
pub enum OsFamily {
    /// Connection tables come from an enumeration command; termination uses
    /// a forceful-kill command family.
    Windows,
    /// A descriptor query names the socket holder directly; termination
    /// sends a signal.
    Unix,
}

} // verus!
