//! The configuration as the registries read it.

use crate::builds::BuildProvider;
use crate::collectors::CollectorInfoView;
use crate::error::ValidationError;
use vstd::prelude::*;

verus! {

/// The capability of backend settings to check their own structure: that
/// what is required is there, that an address is well formed, and whatever
/// else the backend asks of them.
///
/// Nothing is asked of an implementation but to return. What the registries
/// promise, they promise of whatever `validate` returns.
pub trait Validate {
    /// Checks the structure of these settings: `Ok` when nothing is wrong,
    /// else every problem found.
    fn validate(&self) -> Result<(), ValidationError>;
}

/// `validate` reports `verdict` for `settings`: this is what a call of it on
/// these settings returns, or can return.
pub open spec fn reports<S: Validate>(settings: S, verdict: Result<(), ValidationError>) -> bool {
    call_ensures(S::validate, (&settings,), verdict)
}

/// One configuration entry: what every backend has in common, and the
/// settings that only its backend understands.
#[derive(Clone, Debug, PartialEq, Eq)]
pub struct ProviderConfiguration<S> {
    /// The identifier of the collector to create.
    pub id: String,
    /// Whether the collector is meant to run. The registries pass this on
    /// untouched: skipping disabled collectors is the orchestrator's part.
    pub enabled: bool,
    /// What is needed to reach the backend.
    pub settings: S,
}

impl<S> ProviderConfiguration<S> {
    /// The descriptor of the collector that this entry stands for, once the
    /// backend is known.
    pub open spec fn descriptor(&self, provider: BuildProvider) -> CollectorInfoView {
        CollectorInfoView { id: self.id@, enabled: self.enabled, provider }
    }
}

impl<S: Validate> ProviderConfiguration<S> {
    /// Validation accepts this entry: `Ok` is among the verdicts that
    /// `validate` reports for its settings. Verified code knows this of an
    /// entry after a call of `validate` on it that returned `Ok`.
    pub open spec fn accepted(&self) -> bool {
        exists|verdict: Result<(), ValidationError>|
            verdict is Ok && #[trigger] reports(self.settings, verdict)
    }

    /// The entry is valid: validation can only accept it.
    pub open spec fn is_valid(&self) -> bool {
        forall|verdict: Result<(), ValidationError>| #[trigger]
            reports(self.settings, verdict) ==> verdict is Ok
    }

    /// The entry is invalid: validation can only reject it.
    pub open spec fn is_invalid(&self) -> bool {
        forall|verdict: Result<(), ValidationError>| #[trigger]
            reports(self.settings, verdict) ==> verdict is Err
    }

    /// Validates the entry: its settings check themselves.
    pub fn validate(&self) -> (verdict: Result<(), ValidationError>)
        ensures
            reports(self.settings, verdict),
    {
        self.settings.validate()
    }
}

/// A configuration entry, tagged with its backend.
#[derive(Clone, Debug, PartialEq, Eq)]
pub enum CollectorConfiguration<T, A, G, J, O> {
    TeamCity(ProviderConfiguration<T>),
    Azure(ProviderConfiguration<A>),
    GitHub(ProviderConfiguration<G>),
    Jenkins(ProviderConfiguration<J>),
    OctopusDeploy(ProviderConfiguration<O>),
}

impl<T, A, G, J, O> CollectorConfiguration<T, A, G, J, O> {
    /// The entry, if it is one of TeamCity.
    pub open spec fn teamcity(self) -> Option<ProviderConfiguration<T>> {
        match self {
            CollectorConfiguration::TeamCity(entry) => Some(entry),
            _ => None,
        }
    }

    /// The entry, if it is one of Azure DevOps.
    pub open spec fn azure(self) -> Option<ProviderConfiguration<A>> {
        match self {
            CollectorConfiguration::Azure(entry) => Some(entry),
            _ => None,
        }
    }

    /// The entry, if it is one of GitHub.
    pub open spec fn github(self) -> Option<ProviderConfiguration<G>> {
        match self {
            CollectorConfiguration::GitHub(entry) => Some(entry),
            _ => None,
        }
    }

    /// The entry, if it is one of Jenkins.
    pub open spec fn jenkins(self) -> Option<ProviderConfiguration<J>> {
        match self {
            CollectorConfiguration::Jenkins(entry) => Some(entry),
            _ => None,
        }
    }

    /// The entry, if it is one of Octopus Deploy.
    pub open spec fn octopus_deploy(self) -> Option<ProviderConfiguration<O>> {
        match self {
            CollectorConfiguration::OctopusDeploy(entry) => Some(entry),
            _ => None,
        }
    }
}

/// The whole configuration: its entries, in the order in which they were
/// declared.
#[derive(Clone, Debug, PartialEq, Eq)]
pub struct Configuration<T, A, G, J, O> {
    pub collectors: Vec<CollectorConfiguration<T, A, G, J, O>>,
}

impl<T, A, G, J, O> Configuration<T, A, G, J, O> {
    /// The TeamCity entries, in the order in which they were declared.
    pub open spec fn teamcity_entries(&self) -> Seq<ProviderConfiguration<T>> {
        self.collectors@.filter_map(
            |entry: CollectorConfiguration<T, A, G, J, O>| entry.teamcity(),
        )
    }

    /// The Azure DevOps entries, in the order in which they were declared.
    pub open spec fn azure_entries(&self) -> Seq<ProviderConfiguration<A>> {
        self.collectors@.filter_map(
            |entry: CollectorConfiguration<T, A, G, J, O>| entry.azure(),
        )
    }

    /// The GitHub entries, in the order in which they were declared.
    pub open spec fn github_entries(&self) -> Seq<ProviderConfiguration<G>> {
        self.collectors@.filter_map(
            |entry: CollectorConfiguration<T, A, G, J, O>| entry.github(),
        )
    }

    /// The Jenkins entries, in the order in which they were declared.
    pub open spec fn jenkins_entries(&self) -> Seq<ProviderConfiguration<J>> {
        self.collectors@.filter_map(
            |entry: CollectorConfiguration<T, A, G, J, O>| entry.jenkins(),
        )
    }

    /// The Octopus Deploy entries, in the order in which they were declared.
    pub open spec fn octopus_deploy_entries(&self) -> Seq<ProviderConfiguration<O>> {
        self.collectors@.filter_map(
            |entry: CollectorConfiguration<T, A, G, J, O>| entry.octopus_deploy(),
        )
    }
}

} // verus!
