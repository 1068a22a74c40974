//! Collectors and their descriptors.

use crate::builds::BuildProvider;
use crate::config::{ProviderConfiguration, Validate};
use crate::error::DuckResult;
use std::sync::Arc;
use vstd::prelude::*;
use waithandle::EventWaitHandle;

verus! {

/// `waithandle::EventWaitHandle`, the cancellation signal that the
/// orchestrator shares with every running collector. Nothing is claimed of
/// it: it is handed through to [`Collector::collect`] unopened.
#[verifier::external_type_specification]
#[verifier::external_body]
pub struct ExEventWaitHandle(waithandle::EventWaitHandle);

/// What the orchestrator may know of a collector: fixed when the collector
/// is constructed, read-only afterwards.
#[derive(Clone, Debug, PartialEq, Eq)]
pub struct CollectorInfo {
    /// The identifier that the configuration gave to the collector.
    pub id: String,
    /// Whether the collector is meant to run.
    pub enabled: bool,
    /// The backend that the collector polls.
    pub provider: BuildProvider,
}

/// [`CollectorInfo`] with its identifier as plain text.
pub struct CollectorInfoView {
    pub id: Seq<char>,
    pub enabled: bool,
    pub provider: BuildProvider,
}

impl View for CollectorInfo {
    type V = CollectorInfoView;

    open spec fn view(&self) -> CollectorInfoView {
        CollectorInfoView { id: self.id@, enabled: self.enabled, provider: self.provider }
    }
}

/// The uniform interface of a backend integration: a descriptor, and one
/// cancellable poll that hands each build it finds to a callback.
///
/// The orchestrator owns the collectors, runs `collect` once per poll cycle
/// (at most one call per collector at a time, different collectors freely in
/// parallel) and skips the collectors whose descriptor says `enabled: false`.
pub trait Collector: Send {
    /// The record that this collector emits for one observed build.
    type Build;

    /// The descriptor: the same for the whole life of the collector.
    fn info(&self) -> &CollectorInfo;

    /// Polls the backend once.
    ///
    /// * `callback` is called once for each build found, in the order in
    ///   which they are found, and never after `collect` has returned.
    /// * `handle` is looked at between the steps of the poll. Once it is seen
    ///   signaled the poll ends early with `Ok(())`; a poll that starts on a
    ///   signaled handle can so return without a single call of `callback`.
    /// * A failure of the network, of authentication or of parsing is
    ///   returned as an error. It ends this poll and nothing else.
    fn collect<F: FnMut(Self::Build)>(
        &self,
        handle: Arc<EventWaitHandle>,
        callback: &mut F,
    ) -> DuckResult<()>
        requires
            forall|build: Self::Build| old(callback).requires((build,)),
    ;
}

/// The collector of one TeamCity entry, as far as its registry makes it: the
/// descriptor, and a copy of the entry's settings for the poll. The poll is
/// the integration's part; it wraps this value to become a [`Collector`].
#[derive(Debug)]
pub struct TeamCityCollector<T> {
    info: CollectorInfo,
    settings: T,
}

impl<T> View for TeamCityCollector<T> {
    type V = CollectorInfoView;

    /// A collector is seen as its descriptor.
    closed spec fn view(&self) -> CollectorInfoView {
        self.info@
    }
}

impl<T> TeamCityCollector<T> {
    #[verifier::type_invariant]
    spec fn describes_teamcity(&self) -> bool {
        self.info.provider == BuildProvider::TeamCity
    }

    /// The settings that the collector holds.
    pub closed spec fn bound(&self) -> T {
        self.settings
    }

    /// Constructs the collector of an entry that validation has accepted.
    /// Nothing is validated again, and nothing is sent.
    pub fn new(config: &ProviderConfiguration<T>) -> (collector: Self) where
        T: Validate + Clone,

        requires
            config.accepted(),
        ensures
            collector@ == config.descriptor(BuildProvider::TeamCity),
            cloned(config.settings, collector.bound()),
    {
        TeamCityCollector {
            info: CollectorInfo {
                id: config.id.clone(),
                enabled: config.enabled,
                provider: BuildProvider::TeamCity,
            },
            settings: config.settings.clone(),
        }
    }

    /// The descriptor. Its backend is TeamCity, whatever the entry held.
    pub fn info(&self) -> (info: &CollectorInfo)
        ensures
            info@ == self@,
            info.provider == BuildProvider::TeamCity,
    {
        proof {
            use_type_invariant(self);
        }
        &self.info
    }

    /// The settings to poll the backend with.
    pub fn settings(&self) -> (settings: &T)
        ensures
            *settings == self.bound(),
    {
        &self.settings
    }
}

/// The collector of one Azure DevOps entry, as far as its registry makes it:
/// the descriptor, and a copy of the entry's settings for the poll. The poll
/// is the integration's part; it wraps this value to become a [`Collector`].
#[derive(Debug)]
pub struct AzureDevOpsCollector<A> {
    info: CollectorInfo,
    settings: A,
}

impl<A> View for AzureDevOpsCollector<A> {
    type V = CollectorInfoView;

    /// A collector is seen as its descriptor.
    closed spec fn view(&self) -> CollectorInfoView {
        self.info@
    }
}

impl<A> AzureDevOpsCollector<A> {
    #[verifier::type_invariant]
    spec fn describes_azure(&self) -> bool {
        self.info.provider == BuildProvider::AzureDevOps
    }

    /// The settings that the collector holds.
    pub closed spec fn bound(&self) -> A {
        self.settings
    }

    /// Constructs the collector of an entry that validation has accepted.
    /// Nothing is validated again, and nothing is sent.
    pub fn new(config: &ProviderConfiguration<A>) -> (collector: Self) where
        A: Validate + Clone,

        requires
            config.accepted(),
        ensures
            collector@ == config.descriptor(BuildProvider::AzureDevOps),
            cloned(config.settings, collector.bound()),
    {
        AzureDevOpsCollector {
            info: CollectorInfo {
                id: config.id.clone(),
                enabled: config.enabled,
                provider: BuildProvider::AzureDevOps,
            },
            settings: config.settings.clone(),
        }
    }

    /// The descriptor. Its backend is Azure DevOps, whatever the entry held.
    pub fn info(&self) -> (info: &CollectorInfo)
        ensures
            info@ == self@,
            info.provider == BuildProvider::AzureDevOps,
    {
        proof {
            use_type_invariant(self);
        }
        &self.info
    }

    /// The settings to poll the backend with.
    pub fn settings(&self) -> (settings: &A)
        ensures
            *settings == self.bound(),
    {
        &self.settings
    }
}

/// The collector of one GitHub entry, as far as its registry makes it: the
/// descriptor, and a copy of the entry's settings for the poll. The poll is
/// the integration's part; it wraps this value to become a [`Collector`].
#[derive(Debug)]
pub struct GitHubCollector<G> {
    info: CollectorInfo,
    settings: G,
}

impl<G> View for GitHubCollector<G> {
    type V = CollectorInfoView;

    /// A collector is seen as its descriptor.
    closed spec fn view(&self) -> CollectorInfoView {
        self.info@
    }
}

impl<G> GitHubCollector<G> {
    #[verifier::type_invariant]
    spec fn describes_github(&self) -> bool {
        self.info.provider == BuildProvider::GitHub
    }

    /// The settings that the collector holds.
    pub closed spec fn bound(&self) -> G {
        self.settings
    }

    /// Constructs the collector of an entry that validation has accepted.
    /// Nothing is validated again, and nothing is sent.
    pub fn new(config: &ProviderConfiguration<G>) -> (collector: Self) where
        G: Validate + Clone,

        requires
            config.accepted(),
        ensures
            collector@ == config.descriptor(BuildProvider::GitHub),
            cloned(config.settings, collector.bound()),
    {
        GitHubCollector {
            info: CollectorInfo {
                id: config.id.clone(),
                enabled: config.enabled,
                provider: BuildProvider::GitHub,
            },
            settings: config.settings.clone(),
        }
    }

    /// The descriptor. Its backend is GitHub, whatever the entry held.
    pub fn info(&self) -> (info: &CollectorInfo)
        ensures
            info@ == self@,
            info.provider == BuildProvider::GitHub,
    {
        proof {
            use_type_invariant(self);
        }
        &self.info
    }

    /// The settings to poll the backend with.
    pub fn settings(&self) -> (settings: &G)
        ensures
            *settings == self.bound(),
    {
        &self.settings
    }
}

/// The collector of one Jenkins entry, as far as its registry makes it: the
/// descriptor, and a copy of the entry's settings for the poll. The poll is
/// the integration's part; it wraps this value to become a [`Collector`].
#[derive(Debug)]
pub struct JenkinsCollector<J> {
    info: CollectorInfo,
    settings: J,
}

impl<J> View for JenkinsCollector<J> {
    type V = CollectorInfoView;

    /// A collector is seen as its descriptor.
    closed spec fn view(&self) -> CollectorInfoView {
        self.info@
    }
}

impl<J> JenkinsCollector<J> {
    #[verifier::type_invariant]
    spec fn describes_jenkins(&self) -> bool {
        self.info.provider == BuildProvider::Jenkins
    }

    /// The settings that the collector holds.
    pub closed spec fn bound(&self) -> J {
        self.settings
    }

    /// Constructs the collector of an entry that validation has accepted.
    /// Nothing is validated again, and nothing is sent.
    pub fn new(config: &ProviderConfiguration<J>) -> (collector: Self) where
        J: Validate + Clone,

        requires
            config.accepted(),
        ensures
            collector@ == config.descriptor(BuildProvider::Jenkins),
            cloned(config.settings, collector.bound()),
    {
        JenkinsCollector {
            info: CollectorInfo {
                id: config.id.clone(),
                enabled: config.enabled,
                provider: BuildProvider::Jenkins,
            },
            settings: config.settings.clone(),
        }
    }

    /// The descriptor. Its backend is Jenkins, whatever the entry held.
    pub fn info(&self) -> (info: &CollectorInfo)
        ensures
            info@ == self@,
            info.provider == BuildProvider::Jenkins,
    {
        proof {
            use_type_invariant(self);
        }
        &self.info
    }

    /// The settings to poll the backend with.
    pub fn settings(&self) -> (settings: &J)
        ensures
            *settings == self.bound(),
    {
        &self.settings
    }
}

/// The collector of one Octopus Deploy entry, as far as its registry makes it:
/// the descriptor, and a copy of the entry's settings for the poll. The poll
/// is the integration's part; it wraps this value to become a [`Collector`].
#[derive(Debug)]
pub struct OctopusDeployCollector<O> {
    info: CollectorInfo,
    settings: O,
}

impl<O> View for OctopusDeployCollector<O> {
    type V = CollectorInfoView;

    /// A collector is seen as its descriptor.
    closed spec fn view(&self) -> CollectorInfoView {
        self.info@
    }
}

impl<O> OctopusDeployCollector<O> {
    #[verifier::type_invariant]
    spec fn describes_octopus_deploy(&self) -> bool {
        self.info.provider == BuildProvider::OctopusDeploy
    }

    /// The settings that the collector holds.
    pub closed spec fn bound(&self) -> O {
        self.settings
    }

    /// Constructs the collector of an entry that validation has accepted.
    /// Nothing is validated again, and nothing is sent.
    pub fn new(config: &ProviderConfiguration<O>) -> (collector: Self) where
        O: Validate + Clone,

        requires
            config.accepted(),
        ensures
            collector@ == config.descriptor(BuildProvider::OctopusDeploy),
            cloned(config.settings, collector.bound()),
    {
        OctopusDeployCollector {
            info: CollectorInfo {
                id: config.id.clone(),
                enabled: config.enabled,
                provider: BuildProvider::OctopusDeploy,
            },
            settings: config.settings.clone(),
        }
    }

    /// The descriptor. Its backend is Octopus Deploy, whatever the entry held.
    pub fn info(&self) -> (info: &CollectorInfo)
        ensures
            info@ == self@,
            info.provider == BuildProvider::OctopusDeploy,
    {
        proof {
            use_type_invariant(self);
        }
        &self.info
    }

    /// The settings to poll the backend with.
    pub fn settings(&self) -> (settings: &O)
        ensures
            *settings == self.bound(),
    {
        &self.settings
    }
}

} // verus!
