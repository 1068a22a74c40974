//! The collector core of a build monitor.
//!
//! A build monitor watches several CI/CD backends at once. Each backend is
//! polled by a *collector*, and which collectors exist is decided by the
//! configuration. This crate holds the two pieces that every backend
//! integration and the orchestrator share:
//!
//! * the uniform interface of a collector ([`Collector`], [`CollectorInfo`]);
//! * one registry per backend ([`TeamCityProvider`] and its siblings), which
//!   turns the configuration into validated collectors, all or nothing.
//!
//! What a backend's settings look like, how they are validated and how a
//! backend is polled belongs to the integrations; they plug in through
//! [`Validate`] and [`Collector`].

pub mod builds;
pub mod collectors;
pub mod config;
pub mod error;
pub mod providers;
pub mod registry;

pub use builds::BuildProvider;
pub use collectors::{
    AzureDevOpsCollector, Collector, CollectorInfo, CollectorInfoView, GitHubCollector,
    JenkinsCollector, OctopusDeployCollector, TeamCityCollector,
};
pub use config::{
    reports, CollectorConfiguration, Configuration, ProviderConfiguration, Validate,
};
pub use error::{DuckError, DuckErrorView, DuckResult, ValidationError};
pub use providers::{
    AzureDevOpsProvider, GitHubProvider, JenkinsProvider, OctopusDeployProvider, TeamCityProvider,
};
