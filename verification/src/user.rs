//! GitLab users.

use vstd::prelude::*;

verus! {

/// A GitLab user as the API describes the current user.
#[derive(Debug, Clone)]
pub struct User {
    pub id: u64,
    pub username: String,
    pub email: String,
    pub name: String,
}

} // verus!
