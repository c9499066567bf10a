//! Roles of accounts.

use vstd::prelude::*;

verus! {

/// What an account may do. An account has one role from its creation on.
#[derive(Clone, Copy, Debug, PartialEq, Eq, Structural)]
pub enum Role {
    Administrator,
    Client,
}

} // verus!
