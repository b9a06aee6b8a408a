//! Load-state monitor: a per-frame observer of one asynchronous asset load.
//!
//! Each frame the host queries its asset loader for the tracked asset's
//! coarse status and, for every scene entity carrying the asset marker,
//! whether the entity's payload already resolves in the asset store.  It
//! hands both answers to [`observe`], which advances the [`MonitorState`]
//! and returns the diagnostics to emit.  Once a terminal outcome is reached
//! — the asset loaded, a marked payload resolved, or the retry limit was
//! exhausted — the monitor settles and every later frame is a silent no-op.

use vstd::prelude::*;

verus! {

/// Coarse load status the asset loader reports for the tracked asset.
#[derive(Clone, Copy, PartialEq, Eq, Structural, Debug)]
pub enum LoadStatus {
    /// The load has not been started yet.
    NotStarted,
    /// The load is in progress.
    Loading,
    /// The asset finished loading.
    Loaded,
    /// The most recent load attempt failed.
    Failed,
    /// The asset was unloaded again.
    Unloaded,
}

/// Number of failed observations after which the monitor reports the asset
/// unavailable and settles.
pub const RETRY_LIMIT: u32 = 3;

/// The monitor's own mutable record.  It is created once at startup and
/// changed only by [`observe`].
#[derive(Clone, Copy, PartialEq, Eq, Structural, Debug)]
pub struct MonitorState {
    /// True once a terminal report has been made; the monitor is inert
    /// afterwards.  Monotonic: never reverts to false.
    pub settled: bool,
    /// Failed observations counted so far.  Monotonic non-decreasing and
    /// frozen once `settled` is true.
    pub failure_count: u32,
}

impl MonitorState {
    /// States reachable through [`observe`]: the count never passes the
    /// retry limit, and reaching the limit settles the monitor in the same
    /// frame.
    pub open spec fn wf(self) -> bool {
        &&& self.failure_count <= RETRY_LIMIT
        &&& !self.settled ==> self.failure_count < RETRY_LIMIT
    }

    /// The state the monitor starts in: unsettled, no failures observed.
    pub fn new() -> (s: MonitorState)
        ensures
            s == (MonitorState { settled: false, failure_count: 0u32 }),
            s.wf(),
    {
        MonitorState { settled: false, failure_count: 0 }
    }
}

/// One diagnostic the monitor asks the host to emit.  Only [`Report::LoadFailed`]
/// and [`Report::Unavailable`] carry error severity; the rest are informational.
#[derive(Clone, Copy, PartialEq, Eq, Debug)]
pub enum Report {
    /// Error: one more failed observation, carrying the attempt number.
    LoadFailed { attempt: u32 },
    /// Error, terminal: the asset stayed unavailable after `attempts` attempts.
    Unavailable { attempts: u32 },
    /// Info: the status query reported the asset loaded; carries the entity
    /// count of the first marked instance whose payload resolved, if any did.
    LoadedOk { resolved: Option<u64> },
    /// Info: the load is still in progress.
    InProgress,
    /// Info: the load has not been started yet.
    NotYetStarted,
    /// Info: the asset was unloaded again.
    Unloaded,
    /// Info: a marked instance's payload resolved to `entities` spawned entities.
    Resolved { entities: u64 },
    /// Info: a marked instance whose payload has not resolved yet.
    AwaitingResolution,
}

/// Whether at least one marked instance's payload resolved this frame.
pub open spec fn has_resolution(resolutions: Seq<Option<u64>>) -> bool {
    exists|i: int| 0 <= i < resolutions.len() && resolutions[i] is Some
}

/// The first resolution outcome that succeeded, if any: the entity count
/// reported for the earliest marked instance whose payload resolved.
pub open spec fn first_resolved(resolutions: Seq<Option<u64>>) -> Option<u64>
    decreases resolutions.len(),
{
    if resolutions.len() == 0 {
        None
    } else if resolutions[0] is Some {
        resolutions[0]
    } else {
        first_resolved(resolutions.skip(1))
    }
}

/// How the status dispatch alone changes the state of an unsettled monitor.
/// The match is total: every status the loader can report has its arm.
pub open spec fn status_next(s: MonitorState, status: LoadStatus) -> MonitorState {
    match status {
        LoadStatus::Failed => {
            let bumped = MonitorState { failure_count: (s.failure_count + 1) as u32, ..s };
            if bumped.failure_count >= RETRY_LIMIT {
                MonitorState { settled: true, ..bumped }
            } else {
                bumped
            }
        },
        LoadStatus::Loaded => MonitorState { settled: true, ..s },
        LoadStatus::Loading => s,
        LoadStatus::NotStarted => s,
        LoadStatus::Unloaded => s,
    }
}

/// The diagnostics the status dispatch emits for an unsettled monitor.
pub open spec fn status_reports(
    s: MonitorState,
    status: LoadStatus,
    resolutions: Seq<Option<u64>>,
) -> Seq<Report> {
    match status {
        LoadStatus::Failed => {
            let attempt = (s.failure_count + 1) as u32;
            if attempt >= RETRY_LIMIT {
                seq![
                    Report::LoadFailed { attempt },
                    Report::Unavailable { attempts: attempt },
                ]
            } else {
                seq![Report::LoadFailed { attempt }]
            }
        },
        LoadStatus::Loaded => seq![Report::LoadedOk { resolved: first_resolved(resolutions) }],
        LoadStatus::Loading => seq![Report::InProgress],
        LoadStatus::NotStarted => seq![Report::NotYetStarted],
        LoadStatus::Unloaded => seq![Report::Unloaded],
    }
}

/// The diagnostic the resolution pass emits for one marked instance.
pub open spec fn resolution_report(resolution: Option<u64>) -> Report {
    match resolution {
        Some(entities) => Report::Resolved { entities },
        None => Report::AwaitingResolution,
    }
}

/// The state after one frame of observation.  A settled monitor is inert;
/// an unsettled one applies the status dispatch and then settles if any
/// marked instance's payload resolved — the two load signals are merged
/// with or-semantics, so handle-level resolution can settle the monitor
/// while the status flag still says the load is in progress.
pub open spec fn next_state(
    s: MonitorState,
    status: LoadStatus,
    resolutions: Seq<Option<u64>>,
) -> MonitorState {
    if s.settled {
        s
    } else {
        let dispatched = status_next(s, status);
        if has_resolution(resolutions) {
            MonitorState { settled: true, ..dispatched }
        } else {
            dispatched
        }
    }
}

/// Every diagnostic one frame of observation emits, in order: none at all
/// once settled, else the status dispatch's reports followed by one report
/// per marked instance from the resolution pass.
pub open spec fn frame_reports(
    s: MonitorState,
    status: LoadStatus,
    resolutions: Seq<Option<u64>>,
) -> Seq<Report> {
    if s.settled {
        Seq::empty()
    } else {
        status_reports(s, status, resolutions) + resolutions.map_values(
            |r: Option<u64>| resolution_report(r),
        )
    }
}

/// Whether the monitor still needs the host to query the loader this frame.
/// Once it returns false it returns false forever, and the host performs no
/// further loader queries on the monitor's behalf.
pub fn needs_observation(state: &MonitorState) -> (r: bool)
    ensures
        r == !state.settled,
{
    !state.settled
}

/// First successful resolution outcome in the order the host listed the
/// marked instances.
fn scan_resolutions(resolutions: &Vec<Option<u64>>) -> (r: Option<u64>)
    ensures
        r == first_resolved(resolutions@),
{
    let n = resolutions.len();
    let mut i: usize = 0;
    proof {
        assert(resolutions@.skip(0) =~= resolutions@);
    }
    while i < n
        invariant
            i <= n,
            n == resolutions@.len(),
            first_resolved(resolutions@) == first_resolved(resolutions@.skip(i as int)),
            forall|j: int| 0 <= j < i ==> resolutions@[j] is None,
        decreases n - i,
    {
        if let Some(entities) = resolutions[i] {
            assert(resolutions@.skip(i as int)[0] == resolutions@[i as int]);
            return Some(entities);
        }
        proof {
            assert(resolutions@.skip(i as int)[0] == resolutions@[i as int]);
            assert(resolutions@.skip(i as int).skip(1) =~= resolutions@.skip(i + 1));
        }
        i += 1;
    }
    proof {
        assert(resolutions@.skip(n as int) =~= Seq::<Option<u64>>::empty());
    }
    None
}

/// One frame of the load-state monitor.  The host queries the loader only
/// when [`needs_observation`] says so, passes the answer in as `status`,
/// and lists in `resolutions` the resolution outcome of every scene entity
/// carrying the asset marker, in scene order: the reported entity count
/// where the payload resolved, `None` where it has not yet.  Returns the
/// diagnostics to emit this frame.
///
/// A settled monitor does nothing and stays silent.  Otherwise the status
/// dispatch counts failures against [`RETRY_LIMIT`] and settles on a loaded
/// or retry-exhausted outcome, and the resolution pass settles the monitor
/// whenever any marked payload resolved, whatever the status said.
pub fn observe(
    state: &mut MonitorState,
    status: LoadStatus,
    resolutions: &Vec<Option<u64>>,
) -> (reports: Vec<Report>)
    requires
        old(state).wf(),
    ensures
        final(state).wf(),
        *final(state) == next_state(*old(state), status, resolutions@),
        reports@ == frame_reports(*old(state), status, resolutions@),
        old(state).settled ==> *final(state) == *old(state) && reports@.len() == 0,
        final(state).failure_count >= old(state).failure_count,
        old(state).settled ==> final(state).settled,
{
    if state.settled {
        return Vec::new();
    }
    let ghost entry = *state;
    let mut reports: Vec<Report> = Vec::new();
    match status {
        LoadStatus::Failed => {
            let attempt = state.failure_count + 1;
            state.failure_count = attempt;
            reports.push(Report::LoadFailed { attempt });
            if attempt >= RETRY_LIMIT {
                reports.push(Report::Unavailable { attempts: attempt });
                state.settled = true;
            }
        },
        LoadStatus::Loaded => {
            let resolved = scan_resolutions(resolutions);
            reports.push(Report::LoadedOk { resolved });
            state.settled = true;
        },
        LoadStatus::Loading => {
            reports.push(Report::InProgress);
        },
        LoadStatus::NotStarted => {
            reports.push(Report::NotYetStarted);
        },
        LoadStatus::Unloaded => {
            reports.push(Report::Unloaded);
        },
    }
    assert(*state == status_next(entry, status));
    assert(reports@ =~= status_reports(entry, status, resolutions@));
    let n = resolutions.len();
    let mut i: usize = 0;
    while i < n
        invariant
            i <= n,
            n == resolutions@.len(),
            if has_resolution(resolutions@.take(i as int)) {
                *state == (MonitorState { settled: true, ..status_next(entry, status) })
            } else {
                *state == status_next(entry, status)
            },
            reports@ == status_reports(entry, status, resolutions@) + resolutions@.take(
                i as int,
            ).map_values(|r: Option<u64>| resolution_report(r)),
        decreases n - i,
    {
        let ghost before = resolutions@.take(i as int);
        match resolutions[i] {
            Some(entities) => {
                reports.push(Report::Resolved { entities });
                state.settled = true;
                proof {
                    assert(resolutions@.take(i + 1)[i as int] is Some);
                }
            },
            None => {
                reports.push(Report::AwaitingResolution);
                proof {
                    assert forall|j: int|
                        0 <= j < i + 1 && #[trigger] resolutions@.take(i + 1)[j] is Some implies has_resolution(
                        before,
                    ) by {
                        assert(before[j] == resolutions@.take(i + 1)[j]);
                    }
                }
            },
        }
        proof {
            assert(resolutions@.take(i + 1) =~= before.push(resolutions@[i as int]));
            assert(resolutions@.take(i + 1).map_values(|r: Option<u64>| resolution_report(r))
                =~= before.map_values(|r: Option<u64>| resolution_report(r)).push(
                resolution_report(resolutions@[i as int]),
            ));
        }
        i += 1;
    }
    proof {
        assert(resolutions@.take(n as int) =~= resolutions@);
    }
    reports
}

/// One frame's worth of observation input: the loader's status answer and
/// the resolution outcome of each marked instance.
pub struct FrameInput {
    /// What the loader's status query answered this frame.
    pub status: LoadStatus,
    /// Per marked instance, the entity count where the payload resolved.
    pub resolutions: Seq<Option<u64>>,
}

/// The state reached from `s` after observing `frames`, one frame at a time.
pub open spec fn run(s: MonitorState, frames: Seq<FrameInput>) -> MonitorState
    decreases frames.len(),
{
    if frames.len() == 0 {
        s
    } else {
        run(next_state(s, frames[0].status, frames[0].resolutions), frames.skip(1))
    }
}

/// A settled monitor never moves again: any sequence of further frames
/// leaves the state exactly as it is.
pub proof fn lemma_settled_run_unchanged(s: MonitorState, frames: Seq<FrameInput>)
    requires
        s.settled,
    ensures
        run(s, frames) == s,
    decreases frames.len(),
{
    if frames.len() > 0 {
        lemma_settled_run_unchanged(s, frames.skip(1));
    }
}

/// Idempotent silence: once settled, every later frame leaves the state
/// untouched and emits no diagnostic at all — the state before each frame
/// `i` of `frames` is still `s`, and that frame's report list is empty.
pub proof fn lemma_settled_silent(s: MonitorState, frames: Seq<FrameInput>)
    requires
        s.settled,
    ensures
        run(s, frames) == s,
        forall|i: int|
            0 <= i < frames.len() ==> frame_reports(
                run(s, #[trigger] frames.take(i)),
                frames[i].status,
                frames[i].resolutions,
            ) == Seq::<Report>::empty(),
{
    lemma_settled_run_unchanged(s, frames);
    assert forall|i: int|
        0 <= i < frames.len() implies frame_reports(
        run(s, #[trigger] frames.take(i)),
        frames[i].status,
        frames[i].resolutions,
    ) == Seq::<Report>::empty() by {
        lemma_settled_run_unchanged(s, frames.take(i));
    }
}

/// The failure count is monotonic, frozen once the monitor settles, and
/// never passes [`RETRY_LIMIT`]; the settled flag is monotonic too.  Holds
/// over every sequence of frames from any reachable state.
pub proof fn lemma_counter_monotone_bounded(s: MonitorState, frames: Seq<FrameInput>)
    requires
        s.wf(),
    ensures
        run(s, frames).wf(),
        run(s, frames).failure_count <= RETRY_LIMIT,
        run(s, frames).failure_count >= s.failure_count,
        s.settled ==> run(s, frames) == s,
        s.settled ==> run(s, frames).settled,
    decreases frames.len(),
{
    if frames.len() > 0 {
        lemma_counter_monotone_bounded(
            next_state(s, frames[0].status, frames[0].resolutions),
            frames.skip(1),
        );
    }
}

/// Or-settling through handle resolution: while the loader still answers
/// `Loading`, one resolved payload among the marked instances settles the
/// monitor with its failure count unchanged, and from then on no frame —
/// in particular no `Failed` answer — can grow the count again.
pub proof fn lemma_resolution_settles(
    s: MonitorState,
    resolutions: Seq<Option<u64>>,
    later: Seq<FrameInput>,
)
    requires
        !s.settled,
        has_resolution(resolutions),
    ensures
        next_state(s, LoadStatus::Loading, resolutions).settled,
        next_state(s, LoadStatus::Loading, resolutions).failure_count == s.failure_count,
        run(next_state(s, LoadStatus::Loading, resolutions), later) == next_state(
            s,
            LoadStatus::Loading,
            resolutions,
        ),
{
    lemma_settled_run_unchanged(next_state(s, LoadStatus::Loading, resolutions), later);
}

} // verus!
