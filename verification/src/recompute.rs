//! The rules of a background recomputation: what is stale, and whether a job
//! may still go on.
//!
//! A job runs in three stages (smoothing, adaptive zoom, commit). Before each
//! stage it looks at the coordinator: a job whose id is no longer the current
//! one has been superseded and stops without a trace. A stage whose inputs have
//! the fingerprint that was last committed is skipped.

use vstd::prelude::*;

verus! {

/// What the recomputations of one stabilization job share: the id of the job
/// that was submitted last, and the fingerprints that the last finished job
/// committed.
#[derive(Clone, Copy, Debug, PartialEq, Eq, Structural)]
pub struct Coordinator {
    /// Id of the job submitted last: the only one that may still commit.
    pub current_compute_id: u64,
    /// Fingerprint of the smoothing settings that were last committed.
    pub smoothness_checksum: u64,
    /// Fingerprint of the adaptive-zoom settings that were last committed.
    pub adaptive_zoom_checksum: u64,
}

/// How far a job has come.
#[derive(Clone, Copy, Debug, PartialEq, Eq, Structural)]
pub enum JobStage {
    /// Submitted; nothing decided yet.
    Entry,
    /// The smoothing stage is behind it.
    Smoothed,
    /// The adaptive-zoom stage is behind it.
    Zoomed,
    /// It committed and its completion was reported.
    Finished,
    /// It found itself superseded and stopped.
    Aborted,
}

/// What the caller does after a job has advanced.
#[derive(Clone, Copy, Debug, PartialEq, Eq, Structural)]
pub enum JobAction {
    /// The job was superseded: drop it, commit nothing, notify nobody.
    Abandon,
    /// Recompute smoothing, then advance again.
    RecomputeSmoothing,
    /// Smoothing is up to date: advance again.
    KeepSmoothing,
    /// Recompute the per-frame fields of view, then advance again.
    RecomputeZoom,
    /// The fields of view are up to date: advance again.
    KeepZoom,
    /// Make the job's compute parameters the active ones and report the job's
    /// id as completed.
    Commit,
    /// The job had ended before: nothing is left to do.
    Idle,
}

/// One background recomputation.
#[derive(Clone, Copy, Debug, PartialEq, Eq, Structural)]
pub struct RecomputeJob {
    /// The id under which the job was submitted.
    pub id: u64,
    /// How far the job has come.
    pub stage: JobStage,
    /// Whether this job recomputed smoothing.
    pub smoothing_changed: bool,
}

/// A job, the coordinator and the action after the job has advanced once.
pub struct StepOutcome {
    pub job: RecomputeJob,
    pub coordinator: Coordinator,
    pub action: JobAction,
}

/// The job that a submission under `id` starts.
pub open spec fn fresh_job(id: u64) -> RecomputeJob {
    RecomputeJob { id, stage: JobStage::Entry, smoothing_changed: false }
}

/// The coordinator after a job is submitted under `id`.
pub open spec fn submitted(coordinator: Coordinator, id: u64) -> Coordinator {
    Coordinator { current_compute_id: id, ..coordinator }
}

/// Whether a job has neither finished nor stopped.
pub open spec fn is_live(job: RecomputeJob) -> bool {
    job.stage != JobStage::Finished && job.stage != JobStage::Aborted
}

/// One step of a job, given the coordinator as the job finds it and the
/// fingerprints of the smoothing and adaptive-zoom settings at that moment.
///
/// A live job that is not the current one stops. Otherwise the smoothing stage
/// runs where the smoothing fingerprint differs from the committed one; the
/// adaptive-zoom stage runs where smoothing ran in this job or the zoom
/// fingerprint differs from the committed one; and the last step commits both
/// fingerprints and finishes the job.
pub open spec fn step(
    job: RecomputeJob,
    coordinator: Coordinator,
    smoothing: u64,
    zoom: u64,
) -> StepOutcome {
    if !is_live(job) {
        StepOutcome { job, coordinator, action: JobAction::Idle }
    } else if coordinator.current_compute_id != job.id {
        StepOutcome {
            job: RecomputeJob { stage: JobStage::Aborted, ..job },
            coordinator,
            action: JobAction::Abandon,
        }
    } else {
        match job.stage {
            JobStage::Entry => {
                let stale = smoothing != coordinator.smoothness_checksum;
                StepOutcome {
                    job: RecomputeJob { stage: JobStage::Smoothed, smoothing_changed: stale, ..job },
                    coordinator,
                    action: if stale {
                        JobAction::RecomputeSmoothing
                    } else {
                        JobAction::KeepSmoothing
                    },
                }
            },
            JobStage::Smoothed => {
                let stale = job.smoothing_changed || zoom != coordinator.adaptive_zoom_checksum;
                StepOutcome {
                    job: RecomputeJob { stage: JobStage::Zoomed, ..job },
                    coordinator,
                    action: if stale {
                        JobAction::RecomputeZoom
                    } else {
                        JobAction::KeepZoom
                    },
                }
            },
            _ => StepOutcome {
                job: RecomputeJob { stage: JobStage::Finished, ..job },
                coordinator: Coordinator {
                    smoothness_checksum: smoothing,
                    adaptive_zoom_checksum: zoom,
                    ..coordinator
                },
                action: JobAction::Commit,
            },
        }
    }
}

impl Default for Coordinator {
    fn default() -> (coordinator: Coordinator)
        ensures
            coordinator == (Coordinator {
                current_compute_id: 0,
                smoothness_checksum: 0,
                adaptive_zoom_checksum: 0,
            }),
    {
        Coordinator { current_compute_id: 0, smoothness_checksum: 0, adaptive_zoom_checksum: 0 }
    }
}

impl Coordinator {
    /// Makes `id` the current job and hands out that job.
    pub fn submit(&mut self, id: u64) -> (job: RecomputeJob)
        ensures
            *final(self) == submitted(*old(self), id),
            job == fresh_job(id),
    {
        self.current_compute_id = id;
        RecomputeJob { id, stage: JobStage::Entry, smoothing_changed: false }
    }

    /// Forgets the committed fingerprints, so that the next job recomputes
    /// every stage whose fingerprint is not zero.
    pub fn forget_fingerprints(&mut self)
        ensures
            *final(self) == (Coordinator {
                smoothness_checksum: 0,
                adaptive_zoom_checksum: 0,
                ..*old(self)
            }),
    {
        self.smoothness_checksum = 0;
        self.adaptive_zoom_checksum = 0;
    }
}

impl RecomputeJob {
    /// Whether the job is superseded: live, and no longer the current one.
    pub fn is_superseded(&self, coordinator: &Coordinator) -> (superseded: bool)
        ensures
            superseded == (is_live(*self) && coordinator.current_compute_id != self.id),
    {
        let live: bool = match self.stage {
            JobStage::Finished => false,
            JobStage::Aborted => false,
            _ => true,
        };
        live && coordinator.current_compute_id != self.id
    }

    /// Takes the job one step further and says what the caller is to do.
    ///
    /// `smoothing` and `zoom` are the fingerprints of the smoothing and
    /// adaptive-zoom settings as they are now.
    pub fn advance(&mut self, coordinator: &mut Coordinator, smoothing: u64, zoom: u64) -> (action:
        JobAction)
        ensures
            *final(self) == step(*old(self), *old(coordinator), smoothing, zoom).job,
            *final(coordinator) == step(*old(self), *old(coordinator), smoothing, zoom).coordinator,
            action == step(*old(self), *old(coordinator), smoothing, zoom).action,
    {
        match self.stage {
            JobStage::Finished => JobAction::Idle,
            JobStage::Aborted => JobAction::Idle,
            JobStage::Entry => {
                if coordinator.current_compute_id != self.id {
                    self.stage = JobStage::Aborted;
                    JobAction::Abandon
                } else {
                    let stale: bool = smoothing != coordinator.smoothness_checksum;
                    self.stage = JobStage::Smoothed;
                    self.smoothing_changed = stale;
                    if stale {
                        JobAction::RecomputeSmoothing
                    } else {
                        JobAction::KeepSmoothing
                    }
                }
            },
            JobStage::Smoothed => {
                if coordinator.current_compute_id != self.id {
                    self.stage = JobStage::Aborted;
                    JobAction::Abandon
                } else {
                    let stale: bool = self.smoothing_changed || zoom
                        != coordinator.adaptive_zoom_checksum;
                    self.stage = JobStage::Zoomed;
                    if stale {
                        JobAction::RecomputeZoom
                    } else {
                        JobAction::KeepZoom
                    }
                }
            },
            JobStage::Zoomed => {
                if coordinator.current_compute_id != self.id {
                    self.stage = JobStage::Aborted;
                    JobAction::Abandon
                } else {
                    coordinator.smoothness_checksum = smoothing;
                    coordinator.adaptive_zoom_checksum = zoom;
                    self.stage = JobStage::Finished;
                    JobAction::Commit
                }
            },
        }
    }
}

/// What a job finds when it advances: the coordinator at that moment, and the
/// fingerprints of the smoothing and adaptive-zoom settings.
pub struct Observation {
    pub coordinator: Coordinator,
    pub smoothing: u64,
    pub zoom: u64,
}

/// The job after it has advanced once on each of the first `n` observations.
pub open spec fn job_after(job: RecomputeJob, seen: Seq<Observation>, n: int) -> RecomputeJob
    decreases n,
{
    if n <= 0 {
        job
    } else {
        step(
            job_after(job, seen, n - 1),
            seen[n - 1].coordinator,
            seen[n - 1].smoothing,
            seen[n - 1].zoom,
        ).job
    }
}

/// The outcome of the step that a job takes on observation `n`, after it has
/// advanced on each one before.
pub open spec fn outcome_at(job: RecomputeJob, seen: Seq<Observation>, n: int) -> StepOutcome {
    step(job_after(job, seen, n), seen[n].coordinator, seen[n].smoothing, seen[n].zoom)
}

/// A job keeps its id, and once it has stopped or finished it stays so.
pub proof fn lemma_job_keeps_id(job: RecomputeJob, seen: Seq<Observation>, n: int)
    requires
        0 <= n <= seen.len(),
    ensures
        job_after(job, seen, n).id == job.id,
        !is_live(job) ==> job_after(job, seen, n) == job,
    decreases n,
{
    if n > 0 {
        lemma_job_keeps_id(job, seen, n - 1);
    }
}

/// A job that is not the current one whenever it looks never commits and never
/// changes the coordinator, however the coordinator and the fingerprints
/// change between its steps. So a job's completion is never reported after a
/// job with another id was submitted, unless its own id becomes current again.
pub proof fn lemma_superseded_job_never_commits(job: RecomputeJob, seen: Seq<Observation>, n: int)
    requires
        job.stage != JobStage::Finished,
        0 <= n < seen.len(),
        forall|i: int| 0 <= i <= n ==> (#[trigger] seen[i]).coordinator.current_compute_id != job.id,
    ensures
        job_after(job, seen, n).stage != JobStage::Finished,
        outcome_at(job, seen, n).action != JobAction::Commit,
        outcome_at(job, seen, n).coordinator == seen[n].coordinator,
        n >= 1 || is_live(job) ==> outcome_at(job, seen, n).job.stage == JobStage::Aborted,
    decreases n,
{
    lemma_job_keeps_id(job, seen, n);
    if n > 0 {
        lemma_superseded_job_never_commits(job, seen, n - 1);
        lemma_job_keeps_id(job, seen, n - 1);
    }
}

/// A job commits at most once: no two steps of one run both commit.
pub proof fn lemma_commit_at_most_once(job: RecomputeJob, seen: Seq<Observation>, i: int, j: int)
    requires
        0 <= i < j < seen.len(),
        outcome_at(job, seen, i).action == JobAction::Commit,
    ensures
        outcome_at(job, seen, j).action == JobAction::Idle,
    decreases j - i,
{
    assert(job_after(job, seen, i + 1) == outcome_at(job, seen, i).job);
    assert(job_after(job, seen, i + 1).stage == JobStage::Finished);
    if j > i + 1 {
        lemma_finished_stays(job, seen, i + 1, j);
    }
}

/// A job that has ended by step `i` is the same at every later step.
pub proof fn lemma_finished_stays(job: RecomputeJob, seen: Seq<Observation>, i: int, j: int)
    requires
        0 <= i <= j <= seen.len(),
        !is_live(job_after(job, seen, i)),
    ensures
        job_after(job, seen, j) == job_after(job, seen, i),
    decreases j - i,
{
    if j > i {
        lemma_finished_stays(job, seen, i, j - 1);
    }
}

/// Nothing but a newer submission keeps a job from completing: a fresh job
/// that is the current one each time it looks commits on its third step, and
/// commits the fingerprints that it finds then.
pub proof fn lemma_current_job_commits(id: u64, seen: Seq<Observation>)
    requires
        seen.len() >= 3,
        forall|i: int| 0 <= i < 3 ==> (#[trigger] seen[i]).coordinator.current_compute_id == id,
    ensures
        outcome_at(fresh_job(id), seen, 0).action != JobAction::Commit,
        outcome_at(fresh_job(id), seen, 1).action != JobAction::Commit,
        outcome_at(fresh_job(id), seen, 2).action == JobAction::Commit,
        outcome_at(fresh_job(id), seen, 2).coordinator == (Coordinator {
            smoothness_checksum: seen[2].smoothing,
            adaptive_zoom_checksum: seen[2].zoom,
            ..seen[2].coordinator
        }),
{
    let job = fresh_job(id);
    assert(job_after(job, seen, 0) == job);
    assert(job_after(job, seen, 1) == outcome_at(job, seen, 0).job);
    assert(job_after(job, seen, 2) == outcome_at(job, seen, 1).job);
}

/// The three observations of a job that runs undisturbed while the settings
/// keep the fingerprints `smoothing` and `zoom`.
pub open spec fn undisturbed(coordinator: Coordinator, smoothing: u64, zoom: u64) -> Seq<
    Observation,
> {
    seq![
        Observation { coordinator, smoothing, zoom },
        Observation { coordinator, smoothing, zoom },
        Observation { coordinator, smoothing, zoom },
    ]
}

/// A stage whose fingerprint is the committed one is skipped: smoothing where
/// its fingerprint is unchanged, adaptive zoom where its own fingerprint is
/// unchanged and smoothing was skipped.
pub proof fn lemma_unchanged_stage_is_skipped(
    job: RecomputeJob,
    coordinator: Coordinator,
    smoothing: u64,
    zoom: u64,
)
    requires
        coordinator.current_compute_id == job.id,
    ensures
        job.stage == JobStage::Entry ==> (step(job, coordinator, smoothing, zoom).action
            == JobAction::RecomputeSmoothing <==> smoothing != coordinator.smoothness_checksum),
        job.stage == JobStage::Entry && smoothing == coordinator.smoothness_checksum ==> step(
            job,
            coordinator,
            smoothing,
            zoom,
        ).action == JobAction::KeepSmoothing,
        job.stage == JobStage::Smoothed ==> (step(job, coordinator, smoothing, zoom).action
            == JobAction::RecomputeZoom <==> (job.smoothing_changed || zoom
            != coordinator.adaptive_zoom_checksum)),
        job.stage == JobStage::Smoothed && !job.smoothing_changed && zoom
            == coordinator.adaptive_zoom_checksum ==> step(
            job,
            coordinator,
            smoothing,
            zoom,
        ).action == JobAction::KeepZoom,
{
}

/// Two recomputations in a row over unchanged settings: the second one skips
/// both stages and leaves the committed fingerprints as the first one left
/// them.
pub proof fn lemma_second_run_skips(
    coordinator: Coordinator,
    first: u64,
    second: u64,
    smoothing: u64,
    zoom: u64,
)
    ensures
        ({
            let start = submitted(coordinator, first);
            let committed = outcome_at(
                fresh_job(first),
                undisturbed(start, smoothing, zoom),
                2,
            ).coordinator;
            let again = undisturbed(submitted(committed, second), smoothing, zoom);
            &&& committed.smoothness_checksum == smoothing
            &&& committed.adaptive_zoom_checksum == zoom
            &&& outcome_at(fresh_job(second), again, 0).action == JobAction::KeepSmoothing
            &&& outcome_at(fresh_job(second), again, 1).action == JobAction::KeepZoom
            &&& outcome_at(fresh_job(second), again, 2).action == JobAction::Commit
            &&& outcome_at(fresh_job(second), again, 2).coordinator == submitted(committed, second)
        }),
{
    let start = submitted(coordinator, first);
    let run = undisturbed(start, smoothing, zoom);
    lemma_current_job_commits(first, run);
    let committed = outcome_at(fresh_job(first), run, 2).coordinator;
    let again = undisturbed(submitted(committed, second), smoothing, zoom);
    lemma_current_job_commits(second, again);
    let job = fresh_job(second);
    assert(job_after(job, again, 0) == job);
    assert(job_after(job, again, 1) == outcome_at(job, again, 0).job);
    assert(job_after(job, again, 2) == outcome_at(job, again, 1).job);
}

/// Whose turn it is when two jobs share a coordinator, and the fingerprints
/// that the job finds on its turn.
pub enum Turn {
    /// The job that was submitted first advances.
    Older(u64, u64),
    /// The job that was submitted last advances.
    Newer(u64, u64),
}

/// Two jobs and the coordinator that they share.
pub struct Race {
    pub coordinator: Coordinator,
    pub older: RecomputeJob,
    pub newer: RecomputeJob,
}

/// The outcome of the step that one turn makes.
pub open spec fn turn_outcome(race: Race, turn: Turn) -> StepOutcome {
    match turn {
        Turn::Older(smoothing, zoom) => step(race.older, race.coordinator, smoothing, zoom),
        Turn::Newer(smoothing, zoom) => step(race.newer, race.coordinator, smoothing, zoom),
    }
}

/// The two jobs and the coordinator after one turn.
pub open spec fn after_turn(race: Race, turn: Turn) -> Race {
    let outcome = turn_outcome(race, turn);
    match turn {
        Turn::Older(_, _) => Race { coordinator: outcome.coordinator, older: outcome.job, ..race },
        Turn::Newer(_, _) => Race { coordinator: outcome.coordinator, newer: outcome.job, ..race },
    }
}

/// The two jobs and the coordinator after the first `n` turns.
pub open spec fn after_turns(race: Race, turns: Seq<Turn>, n: int) -> Race
    decreases n,
{
    if n <= 0 {
        race
    } else {
        after_turn(after_turns(race, turns, n - 1), turns[n - 1])
    }
}

/// Once a newer job has been submitted under another id, the older job never
/// commits, whatever the order in which the two advance: each of its turns
/// leaves the coordinator as it was, and a turn on which the newer job commits
/// leaves in the coordinator the newer job's id and exactly the fingerprints
/// that it found on that turn. So the older job's completion is never
/// reported after the newer one's submission, and what it committed before is
/// overwritten when the newer one commits.
pub proof fn lemma_newer_job_wins(race: Race, turns: Seq<Turn>, n: int)
    requires
        race.older.id != race.newer.id,
        race.coordinator.current_compute_id == race.newer.id,
        0 <= n < turns.len(),
    ensures
        after_turns(race, turns, n).coordinator.current_compute_id == race.newer.id,
        after_turns(race, turns, n).older.id == race.older.id,
        after_turns(race, turns, n).newer.id == race.newer.id,
        turns[n] is Older ==> turn_outcome(after_turns(race, turns, n), turns[n]).action
            != JobAction::Commit,
        turns[n] is Older ==> turn_outcome(after_turns(race, turns, n), turns[n]).coordinator
            == after_turns(race, turns, n).coordinator,
        turns[n] matches Turn::Newer(smoothing, zoom) ==> (turn_outcome(
            after_turns(race, turns, n),
            turns[n],
        ).action == JobAction::Commit ==> turn_outcome(
            after_turns(race, turns, n),
            turns[n],
        ).coordinator == (Coordinator {
            current_compute_id: race.newer.id,
            smoothness_checksum: smoothing,
            adaptive_zoom_checksum: zoom,
        })),
    decreases n,
{
    if n > 0 {
        lemma_newer_job_wins(race, turns, n - 1);
    }
}

} // verus!
