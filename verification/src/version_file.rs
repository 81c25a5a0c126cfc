//! The cache file of a package, and what its age asks for.
//!
//! The file holds one version as text. Its modification time is the clock of
//! the cache: nothing else records when the registry was last asked.

use crate::error::{IoError, IoErrorKind, IoErrorView};
use crate::package::{Package, PackageView};
use crate::text::{chars_of, extend, string_of};
use crate::time::Duration;
use vstd::prelude::*;

verus! {

/// Where the latest known version of a package is kept between runs.
#[derive(Debug, Clone, PartialEq, Eq)]
pub struct VersionFile {
    /// The directory that holds the file.
    pub dir: String,
    /// The name of the file in that directory.
    pub file_name: String,
    /// The version that is running, with which a new file is filled.
    pub version: String,
}

/// A `VersionFile`, as text.
pub struct VersionFileView {
    pub dir: Seq<char>,
    pub file_name: Seq<char>,
    pub version: Seq<char>,
}

impl View for VersionFile {
    type V = VersionFileView;

    open spec fn view(&self) -> VersionFileView {
        VersionFileView { dir: self.dir@, file_name: self.file_name@, version: self.version@ }
    }
}

/// The name of the cache file of `pkg`: a dot, the name under which the
/// package is stored, and `-latest-version`.
pub open spec fn cache_file_name(pkg: PackageView) -> Seq<char> {
    seq!['.'] + pkg.storage_key() + "-latest-version"@
}

impl VersionFile {
    /// The cache file of `pkg` in the directory `dir`, for a program that
    /// runs `version`.
    pub fn new(dir: &str, pkg: &Package, version: &str) -> (file: VersionFile)
        ensures
            file@ == (VersionFileView {
                dir: dir@,
                file_name: cache_file_name(pkg@),
                version: version@,
            }),
    {
        let mut name: Vec<char> = Vec::new();
        name.push('.');
        let key = pkg.name();
        extend(&mut name, &chars_of(key.as_str()));
        extend(&mut name, &chars_of("-latest-version"));
        VersionFile { dir: dir.to_owned(), file_name: string_of(&name), version: version.to_owned() }
    }
}

/// What a look at the cache file found.
#[derive(Debug, Clone, PartialEq, Eq)]
pub enum Probe {
    /// The file is there and was last modified this long ago.
    Aged(Duration),
    /// The file is there, but the clock could not tell its age: it was
    /// modified after now.
    ClockFailed,
    /// The look failed.
    Failed(IoError),
}

/// A `Probe`, with ages in nanoseconds and strings as text.
pub enum ProbeView {
    Aged(nat),
    ClockFailed,
    Failed(IoErrorView),
}

impl View for Probe {
    type V = ProbeView;

    open spec fn view(&self) -> ProbeView {
        match self {
            Probe::Aged(age) => ProbeView::Aged(age@),
            Probe::ClockFailed => ProbeView::ClockFailed,
            Probe::Failed(e) => ProbeView::Failed(e@),
        }
    }
}

/// The states of the cache file.
#[derive(Debug, Clone, Copy, PartialEq, Eq, Structural)]
pub enum CacheState {
    /// There is no file.
    Absent,
    /// The file is younger than the interval: what it holds is used.
    Fresh,
    /// The file is as old as the interval, or older: the registry is asked.
    Stale,
}

impl ProbeView {
    /// The time since the file was modified, in nanoseconds: none at all
    /// where the clock failed.
    pub open spec fn elapsed(self) -> nat {
        match self {
            ProbeView::Aged(age) => age,
            _ => 0,
        }
    }

    /// The state that the probe shows, against an interval in nanoseconds,
    /// or the failure that hid it. A file that was not found is absent; no
    /// other failure is taken for an answer.
    pub open spec fn state(self, interval: nat) -> Result<CacheState, IoErrorView> {
        match self {
            ProbeView::Failed(e) => if e.kind == IoErrorKind::NotFound {
                Ok(CacheState::Absent)
            } else {
                Err(e)
            },
            _ => if self.elapsed() >= interval {
                Ok(CacheState::Stale)
            } else {
                Ok(CacheState::Fresh)
            },
        }
    }
}

/// The failure of a result, as text.
pub open spec fn state_view(r: Result<CacheState, IoError>) -> Result<CacheState, IoErrorView> {
    match r {
        Ok(state) => Ok(state),
        Err(e) => Err(e@),
    }
}

impl Probe {
    /// The state of the cache file, against `interval`.
    pub fn state(self, interval: &Duration) -> (r: Result<CacheState, IoError>)
        ensures
            state_view(r) == self@.state(interval@),
    {
        match self {
            Probe::Failed(e) => {
                match e.kind {
                    IoErrorKind::NotFound => Ok(CacheState::Absent),
                    IoErrorKind::Other => Err(e),
                }
            },
            Probe::Aged(age) => {
                if age.at_least(interval) {
                    Ok(CacheState::Stale)
                } else {
                    Ok(CacheState::Fresh)
                }
            },
            Probe::ClockFailed => {
                if interval.is_zero() {
                    Ok(CacheState::Stale)
                } else {
                    Ok(CacheState::Fresh)
                }
            },
        }
    }
}

} // verus!
