//! The decisions of a whole run: the listing first, then the episodes one
//! at a time in listing order, none of them held up by the failure of
//! another. The caller fetches and reports; the run says what comes next.

use crate::error::ListingError;
use crate::fetch::FetchOutcome;
use crate::listing::{listed_titles, scrape_titles, title_texts};
use crate::plan::{plan_episode, planned, Config, ConfigView, EpisodePlan, EpisodePlanView};
use vstd::prelude::*;

verus! {

/// How far a run has come.
#[derive(Clone, Copy, Debug, PartialEq, Eq, Structural)]
pub enum Phase {
    /// The listing is being fetched.
    Listing,
    /// The episode at position `index` is being fetched.
    Episode { index: usize },
    /// Every episode was attempted.
    Finished,
    /// The listing could not be had; no episode was attempted.
    Aborted(ListingError),
}

/// How the episodes that were attempted ended.
#[derive(Clone, Copy, Debug, PartialEq, Eq, Structural)]
pub struct Tally {
    /// Episodes whose stream ended with every chunk written.
    pub completed: usize,
    /// Episodes whose stream ended after some chunk had failed.
    pub degraded: usize,
    /// Episodes given up before any byte was written.
    pub failed: usize,
}

/// What the caller reports.
#[derive(Debug)]
pub enum RunEvent {
    /// The catalog page arrived; `body` is its text.
    ListingFetched { body: String },
    /// The catalog page could not be fetched.
    ListingFailed,
    /// The episode that was being fetched is over.
    EpisodeDone(FetchOutcome),
}

/// What the caller is to do next.
pub enum RunAction {
    /// Fetch the episode of this plan, then report how it ended.
    Download(EpisodePlan),
    /// The run is over: every episode was attempted.
    Stop(Tally),
    /// The run is over: there is no listing, and nothing is fetched.
    Abort(ListingError),
    /// The event does not belong to this phase: nothing is to be done.
    Unexpected,
}

/// A `RunAction` as contracts see it.
pub enum RunActionView {
    Download(EpisodePlanView),
    Stop(Tally),
    Abort(ListingError),
    Unexpected,
}

impl View for RunAction {
    type V = RunActionView;

    open spec fn view(&self) -> RunActionView {
        match *self {
            RunAction::Download(plan) => RunActionView::Download(plan@),
            RunAction::Stop(tally) => RunActionView::Stop(tally),
            RunAction::Abort(e) => RunActionView::Abort(e),
            RunAction::Unexpected => RunActionView::Unexpected,
        }
    }
}

/// A run: its configuration, the titles of the listing once it is read,
/// the phase, and the tally of the episodes that are over.
pub struct Run {
    config: Config,
    titles: Vec<String>,
    phase: Phase,
    tally: Tally,
}

/// A `Run` as contracts see it.
pub struct RunView {
    pub config: ConfigView,
    pub titles: Seq<Seq<char>>,
    pub phase: Phase,
    pub tally: Tally,
}

/// The number of episodes that `tally` counts.
pub open spec fn tally_sum(tally: Tally) -> nat {
    (tally.completed + tally.degraded + tally.failed) as nat
}

/// `tally` with one more episode, which ended with `outcome`.
pub open spec fn counted(tally: Tally, outcome: FetchOutcome) -> Tally {
    match outcome {
        FetchOutcome::Completed { degraded: false, .. } => Tally {
            completed: (tally.completed + 1) as usize,
            ..tally
        },
        FetchOutcome::Completed { degraded: true, .. } => Tally {
            degraded: (tally.degraded + 1) as usize,
            ..tally
        },
        FetchOutcome::Failed(_) => Tally { failed: (tally.failed + 1) as usize, ..tally },
    }
}

/// Whether a run is in order: while an episode is being fetched, it is one
/// of the listing and the tally counts the episodes before it; at the end
/// the tally counts every episode; before the listing is read, and after it
/// could not be had, there are no titles and nothing is counted.
pub open spec fn run_in_order(run: RunView) -> bool {
    &&& run.titles.len() <= usize::MAX
    &&& match run.phase {
        Phase::Listing => run.titles.len() == 0 && tally_sum(run.tally) == 0,
        Phase::Episode { index } => index < run.titles.len() && tally_sum(run.tally) == index,
        Phase::Finished => tally_sum(run.tally) == run.titles.len(),
        Phase::Aborted(_) => run.titles.len() == 0 && tally_sum(run.tally) == 0,
    }
}

/// The run that goes on to the episode at position `index`, or finishes
/// where the listing has no such episode, and what the caller is to do.
pub open spec fn run_proceed(run: RunView, index: nat) -> (RunView, RunActionView) {
    if index < run.titles.len() {
        (
            RunView { phase: Phase::Episode { index: index as usize }, ..run },
            RunActionView::Download(
                planned(run.config, index, run.titles[index as int], run.titles.len()),
            ),
        )
    } else {
        (RunView { phase: Phase::Finished, ..run }, RunActionView::Stop(run.tally))
    }
}

/// The run after `event` was reported to `run`, and what the caller is to
/// do next.
pub open spec fn run_step(run: RunView, event: RunEvent) -> (RunView, RunActionView) {
    match (run.phase, event) {
        (Phase::Listing, RunEvent::ListingFetched { body }) => match listed_titles(body@) {
            Ok(titles) => run_proceed(RunView { titles, ..run }, 0),
            Err(e) => (RunView { phase: Phase::Aborted(e), ..run }, RunActionView::Abort(e)),
        },
        (Phase::Listing, RunEvent::ListingFailed) => (
            RunView { phase: Phase::Aborted(ListingError::Unreachable), ..run },
            RunActionView::Abort(ListingError::Unreachable),
        ),
        (Phase::Episode { index }, RunEvent::EpisodeDone(outcome)) => run_proceed(
            RunView { tally: counted(run.tally, outcome), ..run },
            index as nat + 1,
        ),
        _ => (run, RunActionView::Unexpected),
    }
}

impl Tally {
    /// Counts one more episode, which ended with `outcome`.
    pub fn count(self, outcome: FetchOutcome) -> (r: Tally)
        requires
            tally_sum(self) < usize::MAX,
        ensures
            r == counted(self, outcome),
            tally_sum(r) == tally_sum(self) + 1,
    {
        match outcome {
            FetchOutcome::Completed { progress: _, degraded: false } => Tally {
                completed: self.completed + 1,
                degraded: self.degraded,
                failed: self.failed,
            },
            FetchOutcome::Completed { progress: _, degraded: true } => Tally {
                completed: self.completed,
                degraded: self.degraded + 1,
                failed: self.failed,
            },
            FetchOutcome::Failed(_) => Tally {
                completed: self.completed,
                degraded: self.degraded,
                failed: self.failed + 1,
            },
        }
    }
}

impl View for Run {
    type V = RunView;

    closed spec fn view(&self) -> RunView {
        RunView {
            config: self.config@,
            titles: title_texts(self.titles),
            phase: self.phase,
            tally: self.tally,
        }
    }
}

impl Run {
    #[verifier::type_invariant]
    spec fn in_order(self) -> bool {
        run_in_order(self@)
    }

    /// A run that has not read its listing yet. The caller fetches the
    /// catalog page of `config` and reports it.
    pub fn new(config: Config) -> (r: Run)
        ensures
            r@ == (RunView {
                config: config@,
                titles: Seq::empty(),
                phase: Phase::Listing,
                tally: Tally { completed: 0, degraded: 0, failed: 0 },
            }),
            run_in_order(r@),
    {
        let r = Run {
            config,
            titles: Vec::new(),
            phase: Phase::Listing,
            tally: Tally { completed: 0, degraded: 0, failed: 0 },
        };
        assert(title_texts(r.titles) =~= Seq::empty());
        r
    }

    /// The phase of the run.
    pub fn phase(&self) -> (r: Phase)
        ensures
            r == self@.phase,
            run_in_order(self@),
    {
        proof {
            use_type_invariant(self);
        }
        self.phase
    }

    /// The tally of the episodes that are over.
    pub fn tally(&self) -> (r: Tally)
        ensures
            r == self@.tally,
    {
        self.tally
    }

    /// The address of the catalog page.
    pub fn catalog_url(&self) -> (r: &str)
        ensures
            r@ == self@.config.catalog_url,
    {
        self.config.catalog_url.as_str()
    }

    /// The titles of the listing, in listing order; none before the listing
    /// is read.
    pub fn titles(&self) -> (r: &Vec<String>)
        ensures
            title_texts(*r) == self@.titles,
    {
        &self.titles
    }

    /// Goes on to the episode at position `index` of `titles`, or finishes
    /// where there is no such episode.
    fn proceed(config: Config, titles: Vec<String>, tally: Tally, index: usize) -> (r: (
        Run,
        RunAction,
    ))
        requires
            index <= titles@.len(),
            tally_sum(tally) == index,
        ensures
            forall|phase: Phase|
                (r.0@, r.1@) == run_proceed(
                    RunView { config: config@, titles: title_texts(titles), phase, tally },
                    index as nat,
                ),
    {
        if index < titles.len() {
            let plan = plan_episode(&config, index, titles[index].as_str(), titles.len());
            (
                Run { config, titles, phase: Phase::Episode { index }, tally },
                RunAction::Download(plan),
            )
        } else {
            (Run { config, titles, phase: Phase::Finished, tally }, RunAction::Stop(tally))
        }
    }

    /// Takes the report of `event` and says what to do next.
    pub fn step(self, event: &RunEvent) -> (r: (Run, RunAction))
        ensures
            (r.0@, r.1@) == run_step(self@, *event),
            run_in_order(r.0@),
    {
        proof {
            use_type_invariant(&self);
        }
        match (self.phase, event) {
            (Phase::Listing, RunEvent::ListingFetched { body }) => {
                match scrape_titles(body.as_str()) {
                    Ok(titles) => {
                        let Run { config, titles: _, phase: _, tally } = self;
                        Run::proceed(config, titles, tally, 0)
                    },
                    Err(e) => {
                        let Run { config, titles, phase: _, tally } = self;
                        (Run { config, titles, phase: Phase::Aborted(e), tally }, RunAction::Abort(e))
                    },
                }
            },
            (Phase::Listing, RunEvent::ListingFailed) => {
                let Run { config, titles, phase: _, tally } = self;
                (
                    Run { config, titles, phase: Phase::Aborted(ListingError::Unreachable), tally },
                    RunAction::Abort(ListingError::Unreachable),
                )
            },
            (Phase::Episode { index }, RunEvent::EpisodeDone(outcome)) => {
                let Run { config, titles, phase: _, tally } = self;
                let tally = tally.count(*outcome);
                Run::proceed(config, titles, tally, index + 1)
            },
            _ => (self, RunAction::Unexpected),
        }
    }
}

/// The run after `events` were reported to `run`, one after another.
pub open spec fn run_trace(run: RunView, events: Seq<RunEvent>) -> RunView
    decreases events.len(),
{
    if events.len() == 0 {
        run
    } else {
        run_step(run_trace(run, events.drop_last()), events.last()).0
    }
}

/// What the caller is told to do on the event at position `k` of `events`,
/// reported to `run` from the start.
pub open spec fn run_action_at(run: RunView, events: Seq<RunEvent>, k: int) -> RunActionView
    recommends
        0 <= k < events.len(),
{
    run_step(run_trace(run, events.take(k)), events[k]).1
}

/// The reports that the episodes are over, with `outcomes` in turn.
pub open spec fn episode_reports(outcomes: Seq<FetchOutcome>) -> Seq<RunEvent> {
    Seq::new(outcomes.len(), |i: int| RunEvent::EpisodeDone(outcomes[i]))
}

/// Whether `event` reports that there is no listing: the page could not be
/// fetched, or it does not hold the list.
pub open spec fn reports_no_listing(event: RunEvent) -> bool {
    match event {
        RunEvent::ListingFetched { body } => listed_titles(body@) is Err,
        RunEvent::ListingFailed => true,
        RunEvent::EpisodeDone(_) => false,
    }
}

/// Reporting one more event takes one more step.
pub proof fn lemma_run_trace_push(run: RunView, events: Seq<RunEvent>, event: RunEvent)
    ensures
        run_trace(run, events.push(event)) == run_step(run_trace(run, events), event).0,
        run_trace(run, seq![event]) == run_step(run, event).0,
{
    assert(events.push(event).drop_last() =~= events);
    assert(seq![event].drop_last() =~= Seq::<RunEvent>::empty());
    assert(run_trace(run, Seq::<RunEvent>::empty()) == run);
}

/// A run that is in order stays in order, whatever is reported to it, as
/// long as the listing has no more titles than can be counted.
pub proof fn lemma_run_stays_in_order(run: RunView, event: RunEvent)
    requires
        run_in_order(run),
        event matches RunEvent::ListingFetched { body } ==> (listed_titles(body@) matches Ok(
            titles,
        ) ==> titles.len() <= usize::MAX),
    ensures
        run_in_order(run_step(run, event).0),
{
}

/// However an episode ended, the run goes on to the next episode of the
/// listing: the failure of one episode holds up no other.
pub proof fn lemma_episode_outcome_does_not_stop_run(run: RunView, outcome: FetchOutcome)
    requires
        run_in_order(run),
        run.phase is Episode,
        run.phase->index + 1 < run.titles.len(),
    ensures
        ({
            let next = run.phase->index + 1;
            let (after, action) = run_step(run, RunEvent::EpisodeDone(outcome));
            &&& after.phase == Phase::Episode { index: next as usize }
            &&& after.titles == run.titles
            &&& action == RunActionView::Download(
                planned(run.config, next as nat, run.titles[next], run.titles.len()),
            )
        }),
{
}

/// Once a run is over, whether finished or aborted, nothing is asked of
/// the caller any more.
pub proof fn lemma_run_over_is_final(run: RunView, events: Seq<RunEvent>)
    requires
        run.phase is Finished || run.phase is Aborted,
    ensures
        run_trace(run, events) == run,
        forall|k: int|
            0 <= k < events.len() ==> #[trigger] run_action_at(run, events, k)
                == RunActionView::Unexpected,
    decreases events.len(),
{
    if events.len() > 0 {
        lemma_run_over_is_final(run, events.drop_last());
    }
    assert forall|k: int| 0 <= k < events.len() implies #[trigger] run_action_at(run, events, k)
        == RunActionView::Unexpected by {
        lemma_run_over_is_final(run, events.take(k));
    }
}

/// Where the listing cannot be had, the run is aborted with the reason, and
/// whatever is reported afterwards, no episode is ever fetched.
pub proof fn lemma_listing_failure_fetches_nothing(
    run: RunView,
    first: RunEvent,
    rest: Seq<RunEvent>,
)
    requires
        run.phase is Listing,
        reports_no_listing(first),
    ensures
        run_step(run, first).1 is Abort,
        run_trace(run, seq![first] + rest).phase == Phase::Aborted(run_step(run, first).1->Abort_0),
        forall|k: int|
            0 <= k <= rest.len() ==> !(#[trigger] run_action_at(run, seq![first] + rest, k)
                is Download),
{
    let events = seq![first] + rest;
    let aborted = run_step(run, first).0;
    lemma_run_trace_push(run, Seq::empty(), first);
    assert forall|k: int| 0 <= k <= rest.len() implies !(#[trigger] run_action_at(run, events, k)
        is Download) by {
        if k == 0 {
            assert(events.take(0) =~= Seq::<RunEvent>::empty());
            assert(run_trace(run, events.take(0)) == run);
        } else {
            assert(events.take(k) =~= seq![first] + rest.take(k - 1));
            lemma_run_trace_concat(run, seq![first], rest.take(k - 1));
            lemma_run_over_is_final(aborted, rest.take(k - 1));
            assert(events[k] == rest[k - 1]);
        }
    }
    lemma_run_trace_concat(run, seq![first], rest);
    lemma_run_over_is_final(aborted, rest);
}

/// Reporting two runs of events one after the other is reporting them as
/// one run.
pub proof fn lemma_run_trace_concat(run: RunView, first: Seq<RunEvent>, second: Seq<RunEvent>)
    ensures
        run_trace(run, first + second) == run_trace(run_trace(run, first), second),
    decreases second.len(),
{
    if second.len() == 0 {
        assert(first + second =~= first);
    } else {
        lemma_run_trace_concat(run, first, second.drop_last());
        assert((first + second).drop_last() =~= first + second.drop_last());
        assert((first + second).last() == second.last());
    }
}

/// After the listing and the reports of the first `k` episodes, the run is
/// at the episode at position `k`, or finished where `k` is the number of
/// titles; it has counted `k` episodes and kept the titles.
pub proof fn lemma_run_reaches_episode(
    run: RunView,
    body: String,
    titles: Seq<Seq<char>>,
    outcomes: Seq<FetchOutcome>,
    k: int,
)
    requires
        run_in_order(run),
        run.phase is Listing,
        listed_titles(body@) == Ok::<Seq<Seq<char>>, ListingError>(titles),
        titles.len() <= usize::MAX,
        0 <= k <= outcomes.len() <= titles.len(),
    ensures
        ({
            let reached = run_trace(
                run,
                seq![RunEvent::ListingFetched { body }] + episode_reports(outcomes.take(k)),
            );
            &&& reached.config == run.config
            &&& reached.titles == titles
            &&& tally_sum(reached.tally) == k
            &&& reached.phase == if k < titles.len() {
                Phase::Episode { index: k as usize }
            } else {
                Phase::Finished
            }
        }),
    decreases k,
{
    let listing = RunEvent::ListingFetched { body };
    if k == 0 {
        assert(episode_reports(outcomes.take(0)) =~= Seq::<RunEvent>::empty());
        assert(seq![listing] + Seq::<RunEvent>::empty() =~= seq![listing]);
        lemma_run_trace_push(run, Seq::empty(), listing);
    } else {
        lemma_run_reaches_episode(run, body, titles, outcomes, k - 1);
        let before = seq![listing] + episode_reports(outcomes.take(k - 1));
        let report = RunEvent::EpisodeDone(outcomes[k - 1]);
        assert(seq![listing] + episode_reports(outcomes.take(k)) =~= before.push(report));
        lemma_run_trace_push(run, before, report);
    }
}

/// A run whose listing is read attempts every title exactly once, in
/// listing order and whatever the outcomes: the answer to the listing is
/// the download of the first episode, the answer to each episode's end is
/// the download of the next, each planned from its own position and title,
/// and the answer to the last one's end is to stop, with as many episodes
/// counted as there are titles.
pub proof fn lemma_run_attempts_every_title(
    run: RunView,
    body: String,
    titles: Seq<Seq<char>>,
    outcomes: Seq<FetchOutcome>,
)
    requires
        run_in_order(run),
        run.phase is Listing,
        listed_titles(body@) == Ok::<Seq<Seq<char>>, ListingError>(titles),
        titles.len() <= usize::MAX,
        outcomes.len() == titles.len(),
    ensures
        ({
            let events = seq![RunEvent::ListingFetched { body }] + episode_reports(outcomes);
            &&& forall|i: int|
                0 <= i < titles.len() ==> #[trigger] run_action_at(run, events, i)
                    == RunActionView::Download(
                    planned(run.config, i as nat, titles[i], titles.len()),
                )
            &&& run_action_at(run, events, titles.len() as int) is Stop
            &&& tally_sum(run_action_at(run, events, titles.len() as int)->Stop_0) == titles.len()
            &&& run_trace(run, events).phase == Phase::Finished
        }),
{
    let listing = RunEvent::ListingFetched { body };
    let events = seq![listing] + episode_reports(outcomes);
    let n = titles.len() as int;
    assert forall|i: int| 0 <= i <= n implies (#[trigger] run_action_at(run, events, i)) == (if i
        < n {
        RunActionView::Download(planned(run.config, i as nat, titles[i], titles.len()))
    } else {
        RunActionView::Stop(run_trace(run, events).tally)
    }) && (i == n ==> tally_sum(run_trace(run, events).tally) == n && run_trace(
        run,
        events,
    ).phase == Phase::Finished) by {
        if i == 0 {
            assert(events.take(0) =~= Seq::<RunEvent>::empty());
            assert(run_trace(run, events.take(0)) == run);
            if n == 0 {
                assert(events =~= seq![listing]);
                lemma_run_trace_push(run, Seq::empty(), listing);
            }
        } else {
            lemma_run_reaches_episode(run, body, titles, outcomes, i - 1);
            assert(events.take(i) =~= seq![listing] + episode_reports(outcomes.take(i - 1)));
            assert(events[i] == RunEvent::EpisodeDone(outcomes[i - 1]));
            if i == n {
                lemma_run_reaches_episode(run, body, titles, outcomes, n);
                assert(outcomes.take(n) =~= outcomes);
                assert(events.take(i).push(events[i]) =~= events);
                lemma_run_trace_push(run, events.take(i), events[i]);
            }
        }
    }
    assert(run_action_at(run, events, n) is Stop);
}

} // verus!
