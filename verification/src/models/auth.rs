//! Credentials as they arrive at the boundary.

use vstd::prelude::*;

verus! {

/// A login request.
#[derive(Debug, PartialEq, Eq)]
pub struct Login {
    pub email: String,
    pub password: String,
}

/// A registration request.
#[derive(Debug, PartialEq, Eq)]
pub struct Register {
    pub username: String,
    pub email: String,
    pub password: String,
}

} // verus!
