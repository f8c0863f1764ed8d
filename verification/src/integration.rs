//! External integrations.
use vstd::prelude::*;
use crate::text::owned;

verus! {

/// Keeps the clients of external integrations.
pub struct IntegrationManager {}

impl IntegrationManager {
    pub fn new() -> Self {
        IntegrationManager {}
    }

    /// The Docker status line.
    pub fn get_docker_status(&self) -> (r: String)
        ensures
            r@ == "Docker: Running"@,
    {
        owned("Docker: Running")
    }
}

} // verus!
