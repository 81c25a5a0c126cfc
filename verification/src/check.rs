//! One check, step by step.
//!
//! A check alternates between work that the library cannot do (looking at
//! the cache file, writing it, asking the registry) and decisions that it
//! makes. The decisions are `advance`: from where the check stands and what
//! the last piece of work brought, it says where the check stands now and
//! what is to be done next. Whoever drives a check starts in `Phase::Idle`
//! with `Event::Begin`, does what each `Action` names and hands back the
//! outcome as the next `Event`, until the action is `Action::Finish`.

use crate::error::{
    CheckError, CheckErrorView, IoError, IoErrorView, TransportError, TransportErrorView,
};
use crate::informer::{InformerView, UpdateInformer};
use crate::package::{Package, PackageView};
use crate::precedence::Precedence;
use crate::time::Duration;
use crate::version::{Version, VersionView};
use crate::version_file::{CacheState, Probe, ProbeView};
use vstd::prelude::*;

verus! {

/// Where a check stands.
#[derive(Debug, Clone, PartialEq, Eq)]
pub enum Phase {
    /// Nothing was done yet.
    Idle,
    /// The cache file is being looked at.
    Probing,
    /// There was no cache file: one is being written, holding the version
    /// that is running.
    Seeding,
    /// The cache file was stale: it is being removed.
    Clearing,
    /// The stale file is gone: a new one is being written, holding the
    /// version that is running, so that its age starts anew before the
    /// registry is asked.
    Resetting,
    /// The registry is being asked. `gated` says whether a cache file is in
    /// use.
    Asking { gated: bool },
    /// The registry's answer is being written to the cache file.
    Saving { latest: String },
    /// The cache file is being read.
    Loading,
    /// The check is over.
    Finished,
}

/// A `Phase`, with strings as text.
pub enum PhaseView {
    Idle,
    Probing,
    Seeding,
    Clearing,
    Resetting,
    Asking { gated: bool },
    Saving { latest: Seq<char> },
    Loading,
    Finished,
}

impl View for Phase {
    type V = PhaseView;

    open spec fn view(&self) -> PhaseView {
        match self {
            Phase::Idle => PhaseView::Idle,
            Phase::Probing => PhaseView::Probing,
            Phase::Seeding => PhaseView::Seeding,
            Phase::Clearing => PhaseView::Clearing,
            Phase::Resetting => PhaseView::Resetting,
            Phase::Asking { gated } => PhaseView::Asking { gated: *gated },
            Phase::Saving { latest } => PhaseView::Saving { latest: latest@ },
            Phase::Loading => PhaseView::Loading,
            Phase::Finished => PhaseView::Finished,
        }
    }
}

/// What a piece of work brought.
#[derive(Debug, PartialEq, Eq)]
pub enum Event {
    /// The check is to start.
    Begin,
    /// The cache file was looked at.
    Probed(Probe),
    /// The cache file was written, or could not be.
    Written(Result<(), IoError>),
    /// The cache file was removed, or could not be.
    Removed(Result<(), IoError>),
    /// The cache file was read, or could not be.
    Loaded(Result<String, IoError>),
    /// The registry named its latest version, had none to name, or could not
    /// be asked.
    Answered(Result<Option<String>, TransportError>),
}

/// An `Event`, with strings as text.
pub enum EventView {
    Begin,
    Probed(ProbeView),
    Written(Result<(), IoErrorView>),
    Removed(Result<(), IoErrorView>),
    Loaded(Result<Seq<char>, IoErrorView>),
    Answered(Result<Option<Seq<char>>, TransportErrorView>),
}

impl View for Event {
    type V = EventView;

    open spec fn view(&self) -> EventView {
        match self {
            Event::Begin => EventView::Begin,
            Event::Probed(probe) => EventView::Probed(probe@),
            Event::Written(Ok(())) => EventView::Written(Ok(())),
            Event::Written(Err(e)) => EventView::Written(Err(e@)),
            Event::Removed(Ok(())) => EventView::Removed(Ok(())),
            Event::Removed(Err(e)) => EventView::Removed(Err(e@)),
            Event::Loaded(Ok(text)) => EventView::Loaded(Ok(text@)),
            Event::Loaded(Err(e)) => EventView::Loaded(Err(e@)),
            Event::Answered(Ok(Some(latest))) => EventView::Answered(Ok(Some(latest@))),
            Event::Answered(Ok(None)) => EventView::Answered(Ok(None)),
            Event::Answered(Err(e)) => EventView::Answered(Err(e@)),
        }
    }
}

/// What is to be done next.
#[derive(Debug, PartialEq)]
pub enum Action {
    /// Look at the cache file; answer with `Event::Probed`.
    Probe,
    /// Write this text to the cache file, in place of what it holds; answer
    /// with `Event::Written`.
    Write(String),
    /// Remove the cache file; answer with `Event::Removed`.
    Remove,
    /// Read the cache file; answer with `Event::Loaded`.
    Load,
    /// Ask the registry for the latest version of `package`, waiting no
    /// longer than `timeout`; answer with `Event::Answered`.
    Ask { package: Package, timeout: Duration },
    /// Nothing: the check is over, and this is its verdict. `Some` names a
    /// version that is newer than the one that is running.
    Finish(Result<Option<Version>, CheckError>),
}

/// An `Action`, with strings as text and spans in nanoseconds.
pub enum ActionView {
    Probe,
    Write(Seq<char>),
    Remove,
    Load,
    Ask { package: PackageView, timeout: nat },
    Finish(Result<Option<VersionView>, CheckErrorView>),
}

/// A verdict, with the version and the error as what they hold.
pub open spec fn outcome_view(r: Result<Option<Version>, CheckError>) -> Result<
    Option<VersionView>,
    CheckErrorView,
> {
    match r {
        Ok(Some(version)) => Ok(Some(version@)),
        Ok(None) => Ok(None),
        Err(e) => Err(e@),
    }
}

impl View for Action {
    type V = ActionView;

    open spec fn view(&self) -> ActionView {
        match self {
            Action::Probe => ActionView::Probe,
            Action::Write(text) => ActionView::Write(text@),
            Action::Remove => ActionView::Remove,
            Action::Load => ActionView::Load,
            Action::Ask { package, timeout } => ActionView::Ask {
                package: package@,
                timeout: timeout@,
            },
            Action::Finish(verdict) => ActionView::Finish(outcome_view(*verdict)),
        }
    }
}

impl ActionView {
    /// Whether the action reads, writes or removes the cache file, or looks
    /// at it.
    pub open spec fn touches_file(self) -> bool {
        self is Probe || self is Write || self is Remove || self is Load
    }
}

/// The verdict on `latest` for a program that runs `current`: the latest
/// version where it comes after the current one, else nothing. Of two texts
/// that are no versions the latest is complained of.
pub open spec fn verdict(latest: Seq<char>, current: Seq<char>) -> Result<
    Option<VersionView>,
    CheckErrorView,
> {
    match VersionView::parse(latest) {
        None => Err(CheckErrorView::Parse(latest)),
        Some(newest) => match VersionView::parse(current) {
            None => Err(CheckErrorView::Parse(current)),
            Some(running) => if newest.precedence(running) == Precedence::Higher {
                Ok(Some(newest))
            } else {
                Ok(None)
            },
        },
    }
}

/// The verdict on `latest` for a program that runs `current`.
pub fn conclude(latest: &str, current: &str) -> (r: Result<Option<Version>, CheckError>)
    ensures
        outcome_view(r) == verdict(latest@, current@),
{
    let newest = match Version::parse(latest) {
        Ok(version) => version,
        Err(e) => {
            return Err(CheckError::Parse(e));
        },
    };
    let running = match Version::parse(current) {
        Ok(version) => version,
        Err(e) => {
            return Err(CheckError::Parse(e));
        },
    };
    match newest.precedence(&running) {
        Precedence::Higher => Ok(Some(newest)),
        _ => Ok(None),
    }
}

impl InformerView {
    /// The question to the registry.
    pub open spec fn ask(self) -> ActionView {
        ActionView::Ask { package: PackageView::parse(self.name), timeout: self.timeout }
    }

    /// Where a check stands after `event` came in `phase`, and what is to be
    /// done next.
    ///
    /// With an interval of no time the registry is asked at once and no
    /// action touches the cache file. Otherwise the cache file is looked at.
    /// Where there is none, one is written that holds the running version,
    /// and what it holds is read and judged: the registry is not asked.
    /// Where it is younger than the interval, it is read and judged. Where it
    /// is as old as the interval, it is removed and written anew with the
    /// running version, then the registry is asked, and a version that it
    /// names is written to the file and judged. A registry that names no
    /// version ends the check with nothing new. The first failure ends the
    /// check, and so does an event that answers no pending action.
    pub open spec fn advance(self, phase: PhaseView, event: EventView) -> (PhaseView, ActionView) {
        match (phase, event) {
            (PhaseView::Idle, EventView::Begin) => if self.interval == 0 {
                (PhaseView::Asking { gated: false }, self.ask())
            } else {
                (PhaseView::Probing, ActionView::Probe)
            },
            (PhaseView::Probing, EventView::Probed(probe)) => match probe.state(self.interval) {
                Ok(CacheState::Absent) => (PhaseView::Seeding, ActionView::Write(self.version)),
                Ok(CacheState::Fresh) => (PhaseView::Loading, ActionView::Load),
                Ok(CacheState::Stale) => (PhaseView::Clearing, ActionView::Remove),
                Err(e) => finish(Err(CheckErrorView::Io(e))),
            },
            (PhaseView::Seeding, EventView::Written(Ok(()))) => (
                PhaseView::Loading,
                ActionView::Load,
            ),
            (PhaseView::Seeding, EventView::Written(Err(e))) => finish(Err(CheckErrorView::Io(e))),
            (PhaseView::Clearing, EventView::Removed(Ok(()))) => (
                PhaseView::Resetting,
                ActionView::Write(self.version),
            ),
            (PhaseView::Clearing, EventView::Removed(Err(e))) => finish(
                Err(CheckErrorView::Io(e)),
            ),
            (PhaseView::Resetting, EventView::Written(Ok(()))) => (
                PhaseView::Asking { gated: true },
                self.ask(),
            ),
            (PhaseView::Resetting, EventView::Written(Err(e))) => finish(
                Err(CheckErrorView::Io(e)),
            ),
            (PhaseView::Asking { gated }, EventView::Answered(Ok(Some(latest)))) => if gated {
                (PhaseView::Saving { latest }, ActionView::Write(latest))
            } else {
                finish(verdict(latest, self.version))
            },
            (PhaseView::Asking { .. }, EventView::Answered(Ok(None))) => finish(Ok(None)),
            (PhaseView::Asking { .. }, EventView::Answered(Err(e))) => finish(
                Err(CheckErrorView::Transport(e)),
            ),
            (PhaseView::Saving { latest }, EventView::Written(Ok(()))) => finish(
                verdict(latest, self.version),
            ),
            (PhaseView::Saving { .. }, EventView::Written(Err(e))) => finish(
                Err(CheckErrorView::Io(e)),
            ),
            (PhaseView::Loading, EventView::Loaded(Ok(text))) => finish(
                verdict(text, self.version),
            ),
            (PhaseView::Loading, EventView::Loaded(Err(e))) => finish(Err(CheckErrorView::Io(e))),
            _ => finish(Err(CheckErrorView::OutOfTurn)),
        }
    }
}

/// The end of a check with this verdict.
pub open spec fn finish(verdict: Result<Option<VersionView>, CheckErrorView>) -> (
    PhaseView,
    ActionView,
) {
    (PhaseView::Finished, ActionView::Finish(verdict))
}

fn finished(verdict: Result<Option<Version>, CheckError>) -> (next: (Phase, Action))
    ensures
        (next.0@, next.1@) == finish(outcome_view(verdict)),
{
    (Phase::Finished, Action::Finish(verdict))
}

impl<R> UpdateInformer<R> {
    /// The question to the registry.
    fn ask(&self) -> (action: Action)
        ensures
            action@ == self@.ask(),
    {
        Action::Ask { package: self.package(), timeout: self.timeout_length() }
    }

    /// The first step of a check.
    pub fn begin(&self) -> (next: (Phase, Action))
        ensures
            (next.0@, next.1@) == self@.advance(PhaseView::Idle, EventView::Begin),
    {
        self.advance(Phase::Idle, Event::Begin)
    }

    /// Where a check stands after `event` came in `phase`, and what is to be
    /// done next.
    pub fn advance(&self, phase: Phase, event: Event) -> (next: (Phase, Action))
        ensures
            (next.0@, next.1@) == self@.advance(phase@, event@),
    {
        match (phase, event) {
            (Phase::Idle, Event::Begin) => {
                if self.interval_length().is_zero() {
                    (Phase::Asking { gated: false }, self.ask())
                } else {
                    (Phase::Probing, Action::Probe)
                }
            },
            (Phase::Probing, Event::Probed(probe)) => {
                match probe.state(&self.interval_length()) {
                    Ok(CacheState::Absent) => (
                        Phase::Seeding,
                        Action::Write(self.current_version().to_owned()),
                    ),
                    Ok(CacheState::Fresh) => (Phase::Loading, Action::Load),
                    Ok(CacheState::Stale) => (Phase::Clearing, Action::Remove),
                    Err(e) => finished(Err(CheckError::Io(e))),
                }
            },
            (Phase::Seeding, Event::Written(Ok(()))) => (Phase::Loading, Action::Load),
            (Phase::Seeding, Event::Written(Err(e))) => finished(Err(CheckError::Io(e))),
            (Phase::Clearing, Event::Removed(Ok(()))) => (
                Phase::Resetting,
                Action::Write(self.current_version().to_owned()),
            ),
            (Phase::Clearing, Event::Removed(Err(e))) => finished(Err(CheckError::Io(e))),
            (Phase::Resetting, Event::Written(Ok(()))) => (Phase::Asking { gated: true }, self.ask()),
            (Phase::Resetting, Event::Written(Err(e))) => finished(Err(CheckError::Io(e))),
            (Phase::Asking { gated }, Event::Answered(Ok(Some(latest)))) => {
                if gated {
                    (Phase::Saving { latest: latest.clone() }, Action::Write(latest))
                } else {
                    finished(conclude(latest.as_str(), self.current_version()))
                }
            },
            (Phase::Asking { .. }, Event::Answered(Ok(None))) => finished(Ok(None)),
            (Phase::Asking { .. }, Event::Answered(Err(e))) => finished(
                Err(CheckError::Transport(e)),
            ),
            (Phase::Saving { latest }, Event::Written(Ok(()))) => finished(
                conclude(latest.as_str(), self.current_version()),
            ),
            (Phase::Saving { .. }, Event::Written(Err(e))) => finished(Err(CheckError::Io(e))),
            (Phase::Loading, Event::Loaded(Ok(text))) => finished(
                conclude(text.as_str(), self.current_version()),
            ),
            (Phase::Loading, Event::Loaded(Err(e))) => finished(Err(CheckError::Io(e))),
            _ => finished(Err(CheckError::OutOfTurn)),
        }
    }
}

} // verus!
