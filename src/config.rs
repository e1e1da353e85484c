//! Deployment configuration handed to the entry points.

use vstd::prelude::*;

verus! {

/// Whether the wallet runs against test networks or production ones.
#[derive(Clone, Copy, Debug, PartialEq, Eq, Structural)]
pub enum Mode {
    Test,
    Production,
}

} // verus!
