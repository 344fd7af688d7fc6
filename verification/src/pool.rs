//! The management surface's per-subnet connection: one subnet's
//! configuration beside the manager instance that serves it.

use vstd::prelude::*;
use crate::config::Subnet;

verus! {

/// The subnet manager connection that holds the subnet config and the
/// manager instance.
pub struct Connection<M> {
    subnet: Subnet,
    manager: M,
}

impl<M> Connection<M> {
    pub closed spec fn subnet_spec(&self) -> Subnet {
        self.subnet
    }

    pub closed spec fn manager_spec(&self) -> M {
        self.manager
    }

    /// Pairs a subnet configuration with the manager that serves it.
    pub fn new(subnet: Subnet, manager: M) -> (r: Connection<M>)
        ensures
            r.subnet_spec() == subnet,
            r.manager_spec() == manager,
    {
        Connection { subnet, manager }
    }

    /// Get the subnet config.
    pub fn subnet(&self) -> (r: &Subnet)
        ensures
            *r == self.subnet_spec(),
    {
        &self.subnet
    }

    /// Get the subnet manager instance.
    pub fn manager(&self) -> (r: &M)
        ensures
            *r == self.manager_spec(),
    {
        &self.manager
    }
}

} // verus!
