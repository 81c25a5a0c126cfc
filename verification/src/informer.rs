//! The informer: what is checked, how often, and with how much patience.

use crate::check::outcome_view;
use crate::error::{CheckError, CheckErrorView};
use crate::package::{Package, PackageView};
use crate::registry::Registry;
use crate::time::{Duration, NANOS_PER_SEC};
use crate::version::{Version, VersionView};
use crate::version_file::{cache_file_name, VersionFile, VersionFileView};
use vstd::prelude::*;

verus! {

/// The seconds of the interval that an informer starts with: one day.
pub const DEFAULT_INTERVAL_SECS: u64 = 86_400;

/// The seconds of the timeout that an informer starts with.
pub const DEFAULT_TIMEOUT_SECS: u64 = 5;

/// Something that can check for a new version.
pub trait Check {
    /// Checks for a new version in the registry.
    fn check_version(&self) -> Result<Option<Version>, CheckError>;
}

/// Checks for a new version on Crates.io, GitHub and PyPi.
pub struct UpdateInformer<R> {
    registry: R,
    name: String,
    version: String,
    interval: Duration,
    timeout: Duration,
}

/// What an informer was told: the name of the package, the version that is
/// running, and the interval and the timeout in nanoseconds.
pub struct InformerView {
    pub name: Seq<char>,
    pub version: Seq<char>,
    pub interval: nat,
    pub timeout: nat,
}

impl<R> View for UpdateInformer<R> {
    type V = InformerView;

    closed spec fn view(&self) -> InformerView {
        InformerView {
            name: self.name@,
            version: self.version@,
            interval: self.interval@,
            timeout: self.timeout@,
        }
    }
}

/// An informer for the package `name`, of which `version` is running. It
/// asks the registry once a day and waits five seconds for the answer.
pub fn new<R: Registry>(registry: R, name: &str, version: &str) -> (informer: UpdateInformer<R>)
    ensures
        informer@ == (InformerView {
            name: name@,
            version: version@,
            interval: (DEFAULT_INTERVAL_SECS * NANOS_PER_SEC) as nat,
            timeout: (DEFAULT_TIMEOUT_SECS * NANOS_PER_SEC) as nat,
        }),
        informer.registry_spec() == registry,
{
    UpdateInformer {
        registry,
        name: name.to_owned(),
        version: version.to_owned(),
        interval: Duration::from_secs(DEFAULT_INTERVAL_SECS),
        timeout: Duration::from_secs(DEFAULT_TIMEOUT_SECS),
    }
}

impl<R: Registry> UpdateInformer<R> {
    /// The same as the function `new` of this library.
    pub fn new(registry: R, name: &str, version: &str) -> (informer: UpdateInformer<R>)
        ensures
            informer@ == (InformerView {
                name: name@,
                version: version@,
                interval: (DEFAULT_INTERVAL_SECS * NANOS_PER_SEC) as nat,
                timeout: (DEFAULT_TIMEOUT_SECS * NANOS_PER_SEC) as nat,
            }),
            informer.registry_spec() == registry,
    {
        crate::informer::new(registry, name, version)
    }
}

impl<R> UpdateInformer<R> {
    /// The registry that the informer was made for.
    pub closed spec fn registry_spec(self) -> R {
        self.registry
    }

    /// The registry that the informer was made for.
    pub fn registry(&self) -> (registry: &R)
        ensures
            *registry == self.registry_spec(),
    {
        &self.registry
    }

    /// The same informer, asking the registry once per `interval`. With an
    /// interval of no time the cache file is left alone and the registry is
    /// asked at every check.
    pub fn interval(self, interval: Duration) -> (informer: UpdateInformer<R>)
        ensures
            informer@ == (InformerView { interval: interval@, ..self@ }),
            informer.registry_spec() == self.registry_spec(),
    {
        UpdateInformer {
            registry: self.registry,
            name: self.name,
            version: self.version,
            interval,
            timeout: self.timeout,
        }
    }

    /// The same informer, waiting `timeout` for the registry.
    pub fn timeout(self, timeout: Duration) -> (informer: UpdateInformer<R>)
        ensures
            informer@ == (InformerView { timeout: timeout@, ..self@ }),
            informer.registry_spec() == self.registry_spec(),
    {
        UpdateInformer {
            registry: self.registry,
            name: self.name,
            version: self.version,
            interval: self.interval,
            timeout,
        }
    }

    /// The package that the informer checks.
    pub fn package(&self) -> (pkg: Package)
        ensures
            pkg@ == PackageView::parse(self@.name),
    {
        Package::new(self.name.as_str())
    }

    /// The version that is running, as it was given.
    pub fn current_version(&self) -> (version: &str)
        ensures
            version@ == self@.version,
    {
        self.version.as_str()
    }

    /// The interval between two questions to the registry.
    pub fn interval_length(&self) -> (interval: Duration)
        ensures
            interval@ == self@.interval,
    {
        self.interval
    }

    /// The time allowed for one question to the registry.
    pub fn timeout_length(&self) -> (timeout: Duration)
        ensures
            timeout@ == self@.timeout,
    {
        self.timeout
    }

    /// The cache file of the informer's package in the directory `dir`.
    pub fn cache_file(&self, dir: &str) -> (file: VersionFile)
        ensures
            file@ == (VersionFileView {
                dir: dir@,
                file_name: cache_file_name(PackageView::parse(self@.name)),
                version: self@.version,
            }),
    {
        VersionFile::new(dir, &self.package(), self.version.as_str())
    }
}

/// Fake `UpdateInformer`. Used only for tests.
#[derive(Debug, Clone, PartialEq, Eq)]
pub struct FakeUpdateInformer {
    version: String,
}

impl View for FakeUpdateInformer {
    type V = Seq<char>;

    /// The version that the informer reports.
    closed spec fn view(&self) -> Seq<char> {
        self.version@
    }
}

/// An informer that asks nobody and reports `new_version`. The registry, the
/// name and the version that is running are not used.
pub fn fake<R: Registry>(_registry: R, _name: &str, _version: &str, new_version: &str) -> (informer:
    FakeUpdateInformer)
    ensures
        informer@ == new_version@,
{
    FakeUpdateInformer { version: new_version.to_owned() }
}

impl FakeUpdateInformer {
    /// The same as the function `fake` of this library.
    pub fn new<R: Registry>(registry: R, name: &str, version: &str, new_version: &str) -> (informer:
        FakeUpdateInformer)
        ensures
            informer@ == new_version@,
    {
        fake(registry, name, version, new_version)
    }

    /// The same informer: it has no use for an interval.
    pub fn interval(self, _interval: Duration) -> (informer: FakeUpdateInformer)
        ensures
            informer == self,
    {
        self
    }

    /// The same informer: it has no use for a timeout.
    pub fn timeout(self, _timeout: Duration) -> (informer: FakeUpdateInformer)
        ensures
            informer == self,
    {
        self
    }
}

impl Check for FakeUpdateInformer {
    /// Reports the version that the informer was made with as a new version,
    /// or fails where that is no version.
    fn check_version(&self) -> (r: Result<Option<Version>, CheckError>)
        ensures
            outcome_view(r) == match VersionView::parse(self@) {
                Some(version) => Ok(Some(version)),
                None => Err(CheckErrorView::Parse(self@)),
            },
    {
        match Version::parse(self.version.as_str()) {
            Ok(version) => Ok(Some(version)),
            Err(e) => Err(CheckError::Parse(e)),
        }
    }
}

} // verus!
