//! What holds of every check, whatever the outside brings.
//!
//! A check is told by the events that were handed to it. `phase_after` is
//! where it stands after them, and `action_at` is what it named when the
//! event at an index came in.

use crate::check::{finish, verdict, ActionView, EventView, PhaseView};
use crate::error::{CheckErrorView, IoErrorKind};
use crate::informer::InformerView;
use crate::version::{lemma_precedence_flip, VersionView};
use crate::version_file::{CacheState, ProbeView};
use vstd::prelude::*;

verus! {

/// Where a check stands after `events`.
pub open spec fn phase_after(config: InformerView, events: Seq<EventView>) -> PhaseView
    decreases events.len(),
{
    if events.len() == 0 {
        PhaseView::Idle
    } else {
        config.advance(phase_after(config, events.drop_last()), events.last()).0
    }
}

/// What a check named when the event at `i` came in.
pub open spec fn action_at(config: InformerView, events: Seq<EventView>, i: int) -> ActionView {
    config.advance(phase_after(config, events.take(i)), events[i]).1
}

/// The greatest number of events that a check in `phase` still takes.
pub open spec fn steps_left(phase: PhaseView) -> nat {
    match phase {
        PhaseView::Idle => 6,
        PhaseView::Probing => 5,
        PhaseView::Clearing => 4,
        PhaseView::Resetting => 3,
        PhaseView::Asking { .. } => 2,
        PhaseView::Seeding => 2,
        PhaseView::Saving { .. } => 1,
        PhaseView::Loading => 1,
        PhaseView::Finished => 0,
    }
}

/// Whether a check in `phase` will not ask the registry any more.
pub open spec fn past_asking(phase: PhaseView) -> bool {
    phase is Asking || phase is Saving || phase is Seeding || phase is Loading || phase is Finished
}

/// Each step brings a check nearer to its end, names a verdict exactly where
/// it ends the check, and leaves a check that is over where it is.
pub proof fn lemma_step(config: InformerView, phase: PhaseView, event: EventView)
    ensures
        ({
            let (next, action) = config.advance(phase, event);
            &&& phase is Finished ==> (next, action) == finish(Err(CheckErrorView::OutOfTurn))
            &&& !(phase is Finished) ==> steps_left(next) < steps_left(phase)
            &&& next is Finished <==> action is Finish
            &&& past_asking(phase) ==> past_asking(next) && !(action is Ask)
            &&& action is Ask ==> next is Asking && !past_asking(phase)
        }),
{
}

/// The phase after the events up to and with the one at `i` is the phase
/// that the step at `i` leads to.
pub proof fn lemma_phase_unfolds(config: InformerView, events: Seq<EventView>, i: int)
    requires
        0 <= i < events.len(),
    ensures
        phase_after(config, events.take(i + 1)) == config.advance(
            phase_after(config, events.take(i)),
            events[i],
        ).0,
{
    assert(events.take(i + 1).drop_last() == events.take(i));
}

/// A check is over after six events at most.
pub proof fn lemma_check_ends(config: InformerView, events: Seq<EventView>)
    ensures
        phase_after(config, events) is Finished || steps_left(phase_after(config, events)) + events.len()
            <= 6,
        events.len() >= 6 ==> phase_after(config, events) is Finished,
    decreases events.len(),
{
    if events.len() > 0 {
        lemma_check_ends(config, events.drop_last());
        lemma_step(config, phase_after(config, events.drop_last()), events.last());
    }
}

/// Among the first six actions of a check is its verdict.
pub proof fn lemma_verdict_comes(config: InformerView, events: Seq<EventView>)
    requires
        events.len() >= 6,
    ensures
        exists|i: int| 0 <= i < 6 && action_at(config, events, i) is Finish,
{
    lemma_check_ends(config, events.take(6));
    lemma_phase_unfolds(config, events, 5);
    lemma_step(config, phase_after(config, events.take(5)), events[5]);
    assert(action_at(config, events, 5) is Finish);
}

/// After its verdict a check names nothing but that the event is out of
/// turn: nothing is written, removed, read or asked once a check is over.
pub proof fn lemma_over_is_over(config: InformerView, events: Seq<EventView>, i: int, j: int)
    requires
        0 <= i < j < events.len(),
        action_at(config, events, i) is Finish,
    ensures
        action_at(config, events, j) == ActionView::Finish(Err(CheckErrorView::OutOfTurn)),
    decreases j - i,
{
    lemma_phase_unfolds(config, events, i);
    lemma_step(config, phase_after(config, events.take(i)), events[i]);
    lemma_stays_finished(config, events, i + 1, j);
    lemma_step(config, phase_after(config, events.take(j)), events[j]);
}

/// A check that is over after `from` events is over after `to`.
proof fn lemma_stays_finished(config: InformerView, events: Seq<EventView>, from: int, to: int)
    requires
        0 <= from <= to <= events.len(),
        phase_after(config, events.take(from)) is Finished,
    ensures
        phase_after(config, events.take(to)) is Finished,
    decreases to - from,
{
    if from < to {
        lemma_stays_finished(config, events, from, to - 1);
        lemma_phase_unfolds(config, events, to - 1);
        lemma_step(config, phase_after(config, events.take(to - 1)), events[to - 1]);
    }
}

/// A check asks the registry at most once.
pub proof fn lemma_asks_once(config: InformerView, events: Seq<EventView>, i: int, j: int)
    requires
        0 <= i < j < events.len(),
        action_at(config, events, i) is Ask,
    ensures
        !(action_at(config, events, j) is Ask),
{
    lemma_phase_unfolds(config, events, i);
    lemma_step(config, phase_after(config, events.take(i)), events[i]);
    lemma_stays_past_asking(config, events, i + 1, j);
    lemma_step(config, phase_after(config, events.take(j)), events[j]);
}

/// A check that will not ask any more after `from` events will not after
/// `to`.
proof fn lemma_stays_past_asking(config: InformerView, events: Seq<EventView>, from: int, to: int)
    requires
        0 <= from <= to <= events.len(),
        past_asking(phase_after(config, events.take(from))),
    ensures
        past_asking(phase_after(config, events.take(to))),
    decreases to - from,
{
    if from < to {
        lemma_stays_past_asking(config, events, from, to - 1);
        lemma_phase_unfolds(config, events, to - 1);
        lemma_step(config, phase_after(config, events.take(to - 1)), events[to - 1]);
    }
}

/// With an interval of no time a check stands only where no cache file is
/// in use.
proof fn lemma_ungated(config: InformerView, events: Seq<EventView>)
    requires
        config.interval == 0,
    ensures
        ({
            let phase = phase_after(config, events);
            phase is Idle || phase == (PhaseView::Asking { gated: false }) || phase is Finished
        }),
    decreases events.len(),
{
    if events.len() > 0 {
        lemma_ungated(config, events.drop_last());
    }
}

/// With an interval of no time no action of a check touches the cache file:
/// it is not looked at, not read, not written and not removed, whatever the
/// registry answers.
pub proof fn lemma_no_interval_no_file(config: InformerView, events: Seq<EventView>, i: int)
    requires
        config.interval == 0,
        0 <= i < events.len(),
    ensures
        !action_at(config, events, i).touches_file(),
{
    lemma_ungated(config, events.take(i));
}

/// What the events of a check must have been for it to stand in a phase
/// from which the registry is asked, or in which it is being asked.
pub open spec fn led_here(config: InformerView, events: Seq<EventView>) -> bool {
    match phase_after(config, events) {
        PhaseView::Idle => events.len() == 0,
        PhaseView::Probing => events.len() == 1 && config.interval > 0,
        PhaseView::Clearing => {
            &&& events.len() == 2
            &&& config.interval > 0
            &&& events[1] matches EventView::Probed(probe)
            &&& probe.state(config.interval) == Ok::<CacheState, crate::error::IoErrorView>(
                CacheState::Stale,
            )
        },
        PhaseView::Resetting => {
            &&& events.len() == 3
            &&& config.interval > 0
            &&& events[1] matches EventView::Probed(probe)
            &&& probe.state(config.interval) == Ok::<CacheState, crate::error::IoErrorView>(
                CacheState::Stale,
            )
            &&& events[2] matches EventView::Removed(Ok(_))
        },
        _ => true,
    }
}

/// The events of a check are those that lead to the phase it stands in.
proof fn lemma_led_here(config: InformerView, events: Seq<EventView>)
    ensures
        led_here(config, events),
    decreases events.len(),
{
    if events.len() > 0 {
        let before = events.drop_last();
        lemma_led_here(config, before);
    }
}

/// The registry is asked in two places only. With an interval of no time it
/// is asked at once. Otherwise it is asked as the fourth action, after a
/// look at the cache file that found it stale, after the removal of the
/// file, and after a new file was written that holds the running version:
/// the age of the file starts anew before the registry is asked. A file
/// that is fresh or absent keeps the registry from being asked.
pub proof fn lemma_asked_when_due(config: InformerView, events: Seq<EventView>, i: int)
    requires
        0 <= i < events.len(),
        action_at(config, events, i) is Ask,
    ensures
        action_at(config, events, i) == config.ask(),
        config.interval == 0 ==> i == 0,
        config.interval > 0 ==> {
            &&& i == 3
            &&& events[1] matches EventView::Probed(probe)
            &&& probe.state(config.interval) == Ok::<CacheState, crate::error::IoErrorView>(
                CacheState::Stale,
            )
            &&& action_at(config, events, 1) == ActionView::Remove
            &&& events[2] matches EventView::Removed(Ok(_))
            &&& action_at(config, events, 2) == ActionView::Write(config.version)
            &&& events[3] matches EventView::Written(Ok(_))
        },
{
    lemma_led_here(config, events.take(i));
    if config.interval > 0 {
        lemma_phase_unfolds(config, events, 2);
        lemma_phase_unfolds(config, events, 1);
        lemma_led_here(config, events.take(2));
        lemma_led_here(config, events.take(1));
    }
}

/// A registry that could not be asked ends the check with that failure.
pub proof fn lemma_failed_answer_ends(
    config: InformerView,
    events: Seq<EventView>,
    i: int,
    e: crate::error::TransportErrorView,
)
    requires
        0 <= i,
        i + 1 < events.len(),
        action_at(config, events, i) is Ask,
        events[i + 1] == EventView::Answered(Err(e)),
    ensures
        action_at(config, events, i + 1) == ActionView::Finish(Err(CheckErrorView::Transport(e))),
{
    lemma_phase_unfolds(config, events, i);
    lemma_step(config, phase_after(config, events.take(i)), events[i]);
}

/// A version is not newer than itself.
pub proof fn lemma_no_news(version: Seq<char>)
    requires
        VersionView::parse(version) is Some,
    ensures
        verdict(version, version) == Ok::<Option<VersionView>, CheckErrorView>(None),
{
    let v = VersionView::parse(version)->0;
    lemma_precedence_flip(v, v);
}

/// The first check of a package is silent. Where no cache file is found,
/// one is written that holds the running version; what it then holds is
/// read, and as that is the running version the verdict is that there is
/// nothing new. The registry is not asked.
pub proof fn lemma_first_check_is_silent(config: InformerView, not_found: ProbeView)
    requires
        config.interval > 0,
        VersionView::parse(config.version) is Some,
        not_found matches ProbeView::Failed(e) && e.kind == IoErrorKind::NotFound,
    ensures
        ({
            let events = seq![
                EventView::Begin,
                EventView::Probed(not_found),
                EventView::Written(Ok(())),
                EventView::Loaded(Ok(config.version)),
            ];
            &&& action_at(config, events, 0) == ActionView::Probe
            &&& action_at(config, events, 1) == ActionView::Write(config.version)
            &&& action_at(config, events, 2) == ActionView::Load
            &&& action_at(config, events, 3) == ActionView::Finish(Ok(None))
        }),
{
    let events = seq![
        EventView::Begin,
        EventView::Probed(not_found),
        EventView::Written(Ok(())),
        EventView::Loaded(Ok(config.version)),
    ];
    lemma_no_news(config.version);
    lemma_phase_unfolds(config, events, 0);
    lemma_phase_unfolds(config, events, 1);
    lemma_phase_unfolds(config, events, 2);
}

/// A fresh cache file answers for the registry: it is read, and what it
/// holds is judged.
pub proof fn lemma_fresh_cache_is_judged(config: InformerView, probe: ProbeView, cached: Seq<char>)
    requires
        config.interval > 0,
        probe.state(config.interval) == Ok::<CacheState, crate::error::IoErrorView>(
            CacheState::Fresh,
        ),
    ensures
        ({
            let events = seq![
                EventView::Begin,
                EventView::Probed(probe),
                EventView::Loaded(Ok(cached)),
            ];
            &&& action_at(config, events, 0) == ActionView::Probe
            &&& action_at(config, events, 1) == ActionView::Load
            &&& action_at(config, events, 2) == ActionView::Finish(verdict(cached, config.version))
        }),
{
    let events = seq![EventView::Begin, EventView::Probed(probe), EventView::Loaded(Ok(cached))];
    lemma_phase_unfolds(config, events, 0);
    lemma_phase_unfolds(config, events, 1);
}

/// A stale cache file is removed and written anew, the registry is asked,
/// and the version that it names is written to the file and judged.
pub proof fn lemma_stale_cache_is_refreshed(
    config: InformerView,
    probe: ProbeView,
    latest: Seq<char>,
)
    requires
        config.interval > 0,
        probe.state(config.interval) == Ok::<CacheState, crate::error::IoErrorView>(
            CacheState::Stale,
        ),
    ensures
        ({
            let events = seq![
                EventView::Begin,
                EventView::Probed(probe),
                EventView::Removed(Ok(())),
                EventView::Written(Ok(())),
                EventView::Answered(Ok(Some(latest))),
                EventView::Written(Ok(())),
            ];
            &&& action_at(config, events, 0) == ActionView::Probe
            &&& action_at(config, events, 1) == ActionView::Remove
            &&& action_at(config, events, 2) == ActionView::Write(config.version)
            &&& action_at(config, events, 3) == config.ask()
            &&& action_at(config, events, 4) == ActionView::Write(latest)
            &&& action_at(config, events, 5) == ActionView::Finish(verdict(latest, config.version))
        }),
{
    let events = seq![
        EventView::Begin,
        EventView::Probed(probe),
        EventView::Removed(Ok(())),
        EventView::Written(Ok(())),
        EventView::Answered(Ok(Some(latest))),
        EventView::Written(Ok(())),
    ];
    lemma_phase_unfolds(config, events, 0);
    lemma_phase_unfolds(config, events, 1);
    lemma_phase_unfolds(config, events, 2);
    lemma_phase_unfolds(config, events, 3);
    lemma_phase_unfolds(config, events, 4);
}

/// With an interval of no time the registry is asked at once, and the
/// version that it names is judged.
pub proof fn lemma_direct_check(config: InformerView, latest: Seq<char>)
    requires
        config.interval == 0,
    ensures
        ({
            let events = seq![EventView::Begin, EventView::Answered(Ok(Some(latest)))];
            &&& action_at(config, events, 0) == config.ask()
            &&& action_at(config, events, 1) == ActionView::Finish(verdict(latest, config.version))
        }),
{
    let events = seq![EventView::Begin, EventView::Answered(Ok(Some(latest)))];
    lemma_phase_unfolds(config, events, 0);
}

} // verus!
