//! The registries: one per backend.
//!
//! A registry reads the whole configuration, picks the entries of its own
//! backend, validates each of them and constructs a collector from each. One
//! rejected entry fails the whole call: a backend gets all of its collectors
//! or none.

use crate::builds::BuildProvider;
use crate::collectors::{
    AzureDevOpsCollector, GitHubCollector, JenkinsCollector, OctopusDeployCollector,
    TeamCityCollector,
};
use crate::config::{CollectorConfiguration, Configuration, Validate};
use crate::error::{DuckError, DuckResult};
use crate::registry::{
    constructed_from, lemma_picked_stays_in_front, lemma_stopped_in_front, registered,
};
use vstd::prelude::*;

verus! {

/// The registry of the TeamCity backend.
pub struct TeamCityProvider {}

impl TeamCityProvider {
    /// Constructs the collectors of the TeamCity entries of `config`: one for
    /// each entry, in the order of the entries, whether or not the entry is
    /// enabled, each with a copy of the entry's settings. An entry is
    /// validated before its collector is constructed. The first entry that
    /// validation rejects ends the call with its problems, and no collector
    /// is returned. Entries of other backends are passed over: their
    /// settings need not even be able to validate themselves.
    pub fn get_collectors<T: Validate + Clone, A, G, J, O>(
        &self,
        config: &Configuration<T, A, G, J, O>,
    ) -> (result: DuckResult<Vec<TeamCityCollector<T>>>)
        ensures
            registered(config.teamcity_entries(), BuildProvider::TeamCity, result),
            result matches Ok(collectors) ==> forall|i: int|
                0 <= i < collectors@.len() ==> cloned(
                    config.teamcity_entries()[i].settings,
                    (#[trigger] collectors@[i]).bound(),
                ),
    {
        let ghost entries = config.collectors@;
        let ghost pick = |entry: CollectorConfiguration<T, A, G, J, O>| entry.teamcity();
        let mut result: Vec<TeamCityCollector<T>> = Vec::new();
        let mut i: usize = 0;
        while i < config.collectors.len()
            invariant
                0 <= i <= config.collectors.len(),
                entries == config.collectors@,
                pick == |entry: CollectorConfiguration<T, A, G, J, O>| entry.teamcity(),
                constructed_from(
                    result@,
                    entries.take(i as int).filter_map(pick),
                    BuildProvider::TeamCity,
                ),
                forall|j: int|
                    0 <= j < result@.len() ==> cloned(
                        entries.take(i as int).filter_map(pick)[j].settings,
                        (#[trigger] result@[j]).bound(),
                    ),
            decreases config.collectors.len() - i,
        {
            let ghost front = entries.take(i as int).filter_map(pick);
            proof {
                entries.lemma_filter_map_take_succ(pick, i as int);
                lemma_picked_stays_in_front(entries, pick, i + 1);
            }
            if let CollectorConfiguration::TeamCity(entry) = &config.collectors[i] {
                match entry.validate() {
                    Ok(()) => {
                        result.push(TeamCityCollector::new(entry));
                    },
                    Err(problems) => {
                        let error = DuckError::Validation(problems);
                        proof {
                            lemma_stopped_in_front(
                                front.push(*entry),
                                entries.filter_map(pick),
                                front.len() as int,
                                error,
                            );
                        }
                        return Err(error);
                    },
                }
            }
            i += 1;
        }
        proof {
            assert(entries.take(i as int) =~= entries);
        }
        Ok(result)
    }
}

/// The registry of the Azure DevOps backend.
pub struct AzureDevOpsProvider {}

impl AzureDevOpsProvider {
    /// Constructs the collectors of the Azure DevOps entries of `config`: one for
    /// each entry, in the order of the entries, whether or not the entry is
    /// enabled, each with a copy of the entry's settings. An entry is
    /// validated before its collector is constructed. The first entry that
    /// validation rejects ends the call with its problems, and no collector
    /// is returned. Entries of other backends are passed over: their
    /// settings need not even be able to validate themselves.
    pub fn get_collectors<T, A: Validate + Clone, G, J, O>(
        &self,
        config: &Configuration<T, A, G, J, O>,
    ) -> (result: DuckResult<Vec<AzureDevOpsCollector<A>>>)
        ensures
            registered(config.azure_entries(), BuildProvider::AzureDevOps, result),
            result matches Ok(collectors) ==> forall|i: int|
                0 <= i < collectors@.len() ==> cloned(
                    config.azure_entries()[i].settings,
                    (#[trigger] collectors@[i]).bound(),
                ),
    {
        let ghost entries = config.collectors@;
        let ghost pick = |entry: CollectorConfiguration<T, A, G, J, O>| entry.azure();
        let mut result: Vec<AzureDevOpsCollector<A>> = Vec::new();
        let mut i: usize = 0;
        while i < config.collectors.len()
            invariant
                0 <= i <= config.collectors.len(),
                entries == config.collectors@,
                pick == |entry: CollectorConfiguration<T, A, G, J, O>| entry.azure(),
                constructed_from(
                    result@,
                    entries.take(i as int).filter_map(pick),
                    BuildProvider::AzureDevOps,
                ),
                forall|j: int|
                    0 <= j < result@.len() ==> cloned(
                        entries.take(i as int).filter_map(pick)[j].settings,
                        (#[trigger] result@[j]).bound(),
                    ),
            decreases config.collectors.len() - i,
        {
            let ghost front = entries.take(i as int).filter_map(pick);
            proof {
                entries.lemma_filter_map_take_succ(pick, i as int);
                lemma_picked_stays_in_front(entries, pick, i + 1);
            }
            if let CollectorConfiguration::Azure(entry) = &config.collectors[i] {
                match entry.validate() {
                    Ok(()) => {
                        result.push(AzureDevOpsCollector::new(entry));
                    },
                    Err(problems) => {
                        let error = DuckError::Validation(problems);
                        proof {
                            lemma_stopped_in_front(
                                front.push(*entry),
                                entries.filter_map(pick),
                                front.len() as int,
                                error,
                            );
                        }
                        return Err(error);
                    },
                }
            }
            i += 1;
        }
        proof {
            assert(entries.take(i as int) =~= entries);
        }
        Ok(result)
    }
}

/// The registry of the GitHub backend.
pub struct GitHubProvider {}

impl GitHubProvider {
    /// Constructs the collectors of the GitHub entries of `config`: one for
    /// each entry, in the order of the entries, whether or not the entry is
    /// enabled, each with a copy of the entry's settings. An entry is
    /// validated before its collector is constructed. The first entry that
    /// validation rejects ends the call with its problems, and no collector
    /// is returned. Entries of other backends are passed over: their
    /// settings need not even be able to validate themselves.
    pub fn get_collectors<T, A, G: Validate + Clone, J, O>(
        &self,
        config: &Configuration<T, A, G, J, O>,
    ) -> (result: DuckResult<Vec<GitHubCollector<G>>>)
        ensures
            registered(config.github_entries(), BuildProvider::GitHub, result),
            result matches Ok(collectors) ==> forall|i: int|
                0 <= i < collectors@.len() ==> cloned(
                    config.github_entries()[i].settings,
                    (#[trigger] collectors@[i]).bound(),
                ),
    {
        let ghost entries = config.collectors@;
        let ghost pick = |entry: CollectorConfiguration<T, A, G, J, O>| entry.github();
        let mut result: Vec<GitHubCollector<G>> = Vec::new();
        let mut i: usize = 0;
        while i < config.collectors.len()
            invariant
                0 <= i <= config.collectors.len(),
                entries == config.collectors@,
                pick == |entry: CollectorConfiguration<T, A, G, J, O>| entry.github(),
                constructed_from(
                    result@,
                    entries.take(i as int).filter_map(pick),
                    BuildProvider::GitHub,
                ),
                forall|j: int|
                    0 <= j < result@.len() ==> cloned(
                        entries.take(i as int).filter_map(pick)[j].settings,
                        (#[trigger] result@[j]).bound(),
                    ),
            decreases config.collectors.len() - i,
        {
            let ghost front = entries.take(i as int).filter_map(pick);
            proof {
                entries.lemma_filter_map_take_succ(pick, i as int);
                lemma_picked_stays_in_front(entries, pick, i + 1);
            }
            if let CollectorConfiguration::GitHub(entry) = &config.collectors[i] {
                match entry.validate() {
                    Ok(()) => {
                        result.push(GitHubCollector::new(entry));
                    },
                    Err(problems) => {
                        let error = DuckError::Validation(problems);
                        proof {
                            lemma_stopped_in_front(
                                front.push(*entry),
                                entries.filter_map(pick),
                                front.len() as int,
                                error,
                            );
                        }
                        return Err(error);
                    },
                }
            }
            i += 1;
        }
        proof {
            assert(entries.take(i as int) =~= entries);
        }
        Ok(result)
    }
}

/// The registry of the Jenkins backend.
pub struct JenkinsProvider {}

impl JenkinsProvider {
    /// Constructs the collectors of the Jenkins entries of `config`: one for
    /// each entry, in the order of the entries, whether or not the entry is
    /// enabled, each with a copy of the entry's settings. An entry is
    /// validated before its collector is constructed. The first entry that
    /// validation rejects ends the call with its problems, and no collector
    /// is returned. Entries of other backends are passed over: their
    /// settings need not even be able to validate themselves.
    pub fn get_collectors<T, A, G, J: Validate + Clone, O>(
        &self,
        config: &Configuration<T, A, G, J, O>,
    ) -> (result: DuckResult<Vec<JenkinsCollector<J>>>)
        ensures
            registered(config.jenkins_entries(), BuildProvider::Jenkins, result),
            result matches Ok(collectors) ==> forall|i: int|
                0 <= i < collectors@.len() ==> cloned(
                    config.jenkins_entries()[i].settings,
                    (#[trigger] collectors@[i]).bound(),
                ),
    {
        let ghost entries = config.collectors@;
        let ghost pick = |entry: CollectorConfiguration<T, A, G, J, O>| entry.jenkins();
        let mut result: Vec<JenkinsCollector<J>> = Vec::new();
        let mut i: usize = 0;
        while i < config.collectors.len()
            invariant
                0 <= i <= config.collectors.len(),
                entries == config.collectors@,
                pick == |entry: CollectorConfiguration<T, A, G, J, O>| entry.jenkins(),
                constructed_from(
                    result@,
                    entries.take(i as int).filter_map(pick),
                    BuildProvider::Jenkins,
                ),
                forall|j: int|
                    0 <= j < result@.len() ==> cloned(
                        entries.take(i as int).filter_map(pick)[j].settings,
                        (#[trigger] result@[j]).bound(),
                    ),
            decreases config.collectors.len() - i,
        {
            let ghost front = entries.take(i as int).filter_map(pick);
            proof {
                entries.lemma_filter_map_take_succ(pick, i as int);
                lemma_picked_stays_in_front(entries, pick, i + 1);
            }
            if let CollectorConfiguration::Jenkins(entry) = &config.collectors[i] {
                match entry.validate() {
                    Ok(()) => {
                        result.push(JenkinsCollector::new(entry));
                    },
                    Err(problems) => {
                        let error = DuckError::Validation(problems);
                        proof {
                            lemma_stopped_in_front(
                                front.push(*entry),
                                entries.filter_map(pick),
                                front.len() as int,
                                error,
                            );
                        }
                        return Err(error);
                    },
                }
            }
            i += 1;
        }
        proof {
            assert(entries.take(i as int) =~= entries);
        }
        Ok(result)
    }
}

/// The registry of the Octopus Deploy backend.
pub struct OctopusDeployProvider {}

impl OctopusDeployProvider {
    /// Constructs the collectors of the Octopus Deploy entries of `config`: one for
    /// each entry, in the order of the entries, whether or not the entry is
    /// enabled, each with a copy of the entry's settings. An entry is
    /// validated before its collector is constructed. The first entry that
    /// validation rejects ends the call with its problems, and no collector
    /// is returned. Entries of other backends are passed over: their
    /// settings need not even be able to validate themselves.
    pub fn get_collectors<T, A, G, J, O: Validate + Clone>(
        &self,
        config: &Configuration<T, A, G, J, O>,
    ) -> (result: DuckResult<Vec<OctopusDeployCollector<O>>>)
        ensures
            registered(config.octopus_deploy_entries(), BuildProvider::OctopusDeploy, result),
            result matches Ok(collectors) ==> forall|i: int|
                0 <= i < collectors@.len() ==> cloned(
                    config.octopus_deploy_entries()[i].settings,
                    (#[trigger] collectors@[i]).bound(),
                ),
    {
        let ghost entries = config.collectors@;
        let ghost pick = |entry: CollectorConfiguration<T, A, G, J, O>| entry.octopus_deploy();
        let mut result: Vec<OctopusDeployCollector<O>> = Vec::new();
        let mut i: usize = 0;
        while i < config.collectors.len()
            invariant
                0 <= i <= config.collectors.len(),
                entries == config.collectors@,
                pick == |entry: CollectorConfiguration<T, A, G, J, O>| entry.octopus_deploy(),
                constructed_from(
                    result@,
                    entries.take(i as int).filter_map(pick),
                    BuildProvider::OctopusDeploy,
                ),
                forall|j: int|
                    0 <= j < result@.len() ==> cloned(
                        entries.take(i as int).filter_map(pick)[j].settings,
                        (#[trigger] result@[j]).bound(),
                    ),
            decreases config.collectors.len() - i,
        {
            let ghost front = entries.take(i as int).filter_map(pick);
            proof {
                entries.lemma_filter_map_take_succ(pick, i as int);
                lemma_picked_stays_in_front(entries, pick, i + 1);
            }
            if let CollectorConfiguration::OctopusDeploy(entry) = &config.collectors[i] {
                match entry.validate() {
                    Ok(()) => {
                        result.push(OctopusDeployCollector::new(entry));
                    },
                    Err(problems) => {
                        let error = DuckError::Validation(problems);
                        proof {
                            lemma_stopped_in_front(
                                front.push(*entry),
                                entries.filter_map(pick),
                                front.len() as int,
                                error,
                            );
                        }
                        return Err(error);
                    },
                }
            }
            i += 1;
        }
        proof {
            assert(entries.take(i as int) =~= entries);
        }
        Ok(result)
    }
}

} // verus!
