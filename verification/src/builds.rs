//! The kinds of backend that builds come from.

use vstd::prelude::*;

verus! {

/// The backends that can be watched. The set is closed: a configuration
/// entry, a collector and a collector's descriptor each belong to exactly one
/// of them.
#[derive(Clone, Copy, Debug, PartialEq, Eq, Hash, Structural)]
pub enum BuildProvider {
    TeamCity,
    AzureDevOps,
    GitHub,
    Jenkins,
    OctopusDeploy,
}

} // verus!
