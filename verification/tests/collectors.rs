use std::sync::Arc;

use duck::{
    AzureDevOpsCollector, AzureDevOpsProvider, BuildProvider, Collector, CollectorConfiguration,
    CollectorInfo, Configuration, DuckError, DuckResult, GitHubCollector, GitHubProvider,
    JenkinsCollector, JenkinsProvider, OctopusDeployCollector, OctopusDeployProvider,
    ProviderConfiguration, TeamCityCollector, TeamCityProvider, Validate, ValidationError,
};
use waithandle::{EventWaitHandle, WaitHandle};

/// Settings that are always in order: the builds that a poll will find.
#[derive(Clone, Debug, PartialEq, Eq)]
struct Found {
    builds: Vec<u32>,
}

impl Validate for Found {
    fn validate(&self) -> Result<(), ValidationError> {
        Ok(())
    }
}

type Config = Configuration<Found, Found, Found, Found, Found>;

fn entry(id: &str, enabled: bool, builds: &[u32]) -> ProviderConfiguration<Found> {
    ProviderConfiguration {
        id: id.to_string(),
        enabled,
        settings: Found { builds: builds.to_vec() },
    }
}

/// A collector that finds what its settings say, looks at the handle before
/// each build, and fails at the end if told to.
struct Mock {
    info: CollectorInfo,
    builds: Vec<u32>,
    failure: Option<String>,
}

impl Collector for Mock {
    type Build = u32;

    fn info(&self) -> &CollectorInfo {
        &self.info
    }

    fn collect<F: FnMut(u32)>(
        &self,
        handle: Arc<EventWaitHandle>,
        callback: &mut F,
    ) -> DuckResult<()> {
        for build in self.builds.iter() {
            if handle.check().unwrap() {
                return Ok(());
            }
            callback(*build);
        }
        match &self.failure {
            Some(message) => Err(DuckError::Collection(message.clone())),
            None => Ok(()),
        }
    }
}

fn mock(info: &CollectorInfo, settings: &Found) -> Mock {
    Mock { info: info.clone(), builds: settings.builds.clone(), failure: None }
}

fn one_of_each() -> Config {
    Configuration {
        collectors: vec![
            CollectorConfiguration::TeamCity(entry("t", true, &[1, 2, 3])),
            CollectorConfiguration::Azure(entry("a", true, &[4, 5])),
            CollectorConfiguration::GitHub(entry("g", true, &[6])),
            CollectorConfiguration::Jenkins(entry("j", true, &[7, 8, 9])),
            CollectorConfiguration::OctopusDeploy(entry("o", true, &[10, 11])),
        ],
    }
}

fn signaled() -> Arc<EventWaitHandle> {
    let handle = Arc::new(EventWaitHandle::new());
    handle.signal().unwrap();
    handle
}

/// Runs one poll and returns what it returned and what it emitted.
fn poll(collector: &Mock, handle: Arc<EventWaitHandle>) -> (DuckResult<()>, Vec<u32>) {
    let mut emitted: Vec<u32> = Vec::new();
    let result = collector.collect(handle, &mut |build| emitted.push(build));
    (result, emitted)
}

#[test]
fn teamcity_collector_describes_its_entry() {
    let collector = TeamCityCollector::new(&entry("tc", true, &[1]));
    assert_eq!(
        collector.info(),
        &CollectorInfo { id: "tc".to_string(), enabled: true, provider: BuildProvider::TeamCity }
    );
    assert_eq!(collector.settings(), &Found { builds: vec![1] });
}

#[test]
fn azure_collector_describes_its_entry() {
    let collector = AzureDevOpsCollector::new(&entry("az", false, &[2, 3]));
    assert_eq!(
        collector.info(),
        &CollectorInfo {
            id: "az".to_string(),
            enabled: false,
            provider: BuildProvider::AzureDevOps
        }
    );
    assert_eq!(collector.settings(), &Found { builds: vec![2, 3] });
}

#[test]
fn github_collector_describes_its_entry() {
    let collector = GitHubCollector::new(&entry("gh", true, &[]));
    assert_eq!(
        collector.info(),
        &CollectorInfo { id: "gh".to_string(), enabled: true, provider: BuildProvider::GitHub }
    );
    assert_eq!(collector.settings(), &Found { builds: vec![] });
}

#[test]
fn jenkins_collector_describes_its_entry() {
    let collector = JenkinsCollector::new(&entry("jk", false, &[4]));
    assert_eq!(
        collector.info(),
        &CollectorInfo { id: "jk".to_string(), enabled: false, provider: BuildProvider::Jenkins }
    );
    assert_eq!(collector.settings(), &Found { builds: vec![4] });
}

#[test]
fn octopus_collector_describes_its_entry() {
    let collector = OctopusDeployCollector::new(&entry("od", true, &[5, 6, 7]));
    assert_eq!(
        collector.info(),
        &CollectorInfo {
            id: "od".to_string(),
            enabled: true,
            provider: BuildProvider::OctopusDeploy
        }
    );
    assert_eq!(collector.settings(), &Found { builds: vec![5, 6, 7] });
}

#[test]
fn collector_keeps_its_own_copy_of_the_settings() {
    let mut source = entry("tc", true, &[1, 2]);
    let collector = TeamCityCollector::new(&source);
    source.settings.builds.push(3);
    source.id.push('x');
    assert_eq!(collector.settings(), &Found { builds: vec![1, 2] });
    assert_eq!(collector.info().id, "tc");
}

#[test]
fn cancelled_teamcity_collector_emits_nothing() {
    let collectors = TeamCityProvider {}.get_collectors(&one_of_each()).unwrap();
    let collector = mock(collectors[0].info(), collectors[0].settings());
    assert_eq!(collector.info().provider, BuildProvider::TeamCity);
    assert_eq!(poll(&collector, signaled()), (Ok(()), vec![]));
}

#[test]
fn cancelled_azure_collector_emits_nothing() {
    let collectors = AzureDevOpsProvider {}.get_collectors(&one_of_each()).unwrap();
    let collector = mock(collectors[0].info(), collectors[0].settings());
    assert_eq!(collector.info().provider, BuildProvider::AzureDevOps);
    assert_eq!(poll(&collector, signaled()), (Ok(()), vec![]));
}

#[test]
fn cancelled_github_collector_emits_nothing() {
    let collectors = GitHubProvider {}.get_collectors(&one_of_each()).unwrap();
    let collector = mock(collectors[0].info(), collectors[0].settings());
    assert_eq!(collector.info().provider, BuildProvider::GitHub);
    assert_eq!(poll(&collector, signaled()), (Ok(()), vec![]));
}

#[test]
fn cancelled_jenkins_collector_emits_nothing() {
    let collectors = JenkinsProvider {}.get_collectors(&one_of_each()).unwrap();
    let collector = mock(collectors[0].info(), collectors[0].settings());
    assert_eq!(collector.info().provider, BuildProvider::Jenkins);
    assert_eq!(poll(&collector, signaled()), (Ok(()), vec![]));
}

#[test]
fn cancelled_octopus_collector_emits_nothing() {
    let collectors = OctopusDeployProvider {}.get_collectors(&one_of_each()).unwrap();
    let collector = mock(collectors[0].info(), collectors[0].settings());
    assert_eq!(collector.info().provider, BuildProvider::OctopusDeploy);
    assert_eq!(poll(&collector, signaled()), (Ok(()), vec![]));
}

#[test]
fn collector_emits_its_builds_in_the_order_found() {
    let collectors = JenkinsProvider {}.get_collectors(&one_of_each()).unwrap();
    let collector = mock(collectors[0].info(), collectors[0].settings());
    let handle = Arc::new(EventWaitHandle::new());
    assert_eq!(poll(&collector, handle), (Ok(()), vec![7, 8, 9]));
}

#[test]
fn collector_stops_once_the_handle_is_signaled() {
    let collectors = TeamCityProvider {}.get_collectors(&one_of_each()).unwrap();
    let collector = mock(collectors[0].info(), collectors[0].settings());
    let handle = Arc::new(EventWaitHandle::new());
    let seen = handle.clone();
    let mut emitted: Vec<u32> = Vec::new();
    let result = collector.collect(handle, &mut |build| {
        emitted.push(build);
        seen.signal().unwrap();
    });
    assert_eq!(result, Ok(()));
    assert_eq!(emitted, vec![1]);
}

#[test]
fn collector_polls_again_after_the_handle_is_reset() {
    let collectors = AzureDevOpsProvider {}.get_collectors(&one_of_each()).unwrap();
    let collector = mock(collectors[0].info(), collectors[0].settings());
    let handle = signaled();
    assert_eq!(poll(&collector, handle.clone()), (Ok(()), vec![]));
    handle.reset().unwrap();
    assert_eq!(poll(&collector, handle), (Ok(()), vec![4, 5]));
}

#[test]
fn failed_poll_is_an_error_and_harms_no_other_collector() {
    let config = one_of_each();
    let github = GitHubProvider {}.get_collectors(&config).unwrap();
    let octopus = OctopusDeployProvider {}.get_collectors(&config).unwrap();
    let mut failing = mock(github[0].info(), github[0].settings());
    failing.failure = Some("401 unauthorized".to_string());
    let healthy = mock(octopus[0].info(), octopus[0].settings());
    let handle = Arc::new(EventWaitHandle::new());

    let (result, emitted) = poll(&failing, handle.clone());
    assert_eq!(result, Err(DuckError::Collection("401 unauthorized".to_string())));
    assert_eq!(emitted, vec![6]);
    assert_eq!(poll(&healthy, handle), (Ok(()), vec![10, 11]));
}

/// Accepts what may be moved to another thread.
fn movable<T: Send>(value: T) -> T {
    value
}

#[test]
fn collectors_and_the_handle_can_be_moved_to_a_worker() {
    let config = one_of_each();
    let teamcity = movable(TeamCityProvider {}.get_collectors(&config).unwrap());
    let collector = movable(mock(teamcity[0].info(), teamcity[0].settings()));
    let handle = movable(Arc::new(EventWaitHandle::new()));
    assert_eq!(poll(&collector, handle), (Ok(()), vec![1, 2, 3]));
}
