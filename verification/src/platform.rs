//! The operating system families that make a difference.

use vstd::prelude::*;

verus! {

/// The operating system family that a decision is made for.
#[derive(Debug, Clone, Copy, PartialEq, Eq, Structural)]
pub enum Platform {
    Unix,
    Windows,
}

} // verus!
