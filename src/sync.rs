//! Bringing the local mirror up to date.
//!
//! The work itself (inspecting the mirror, cloning, fetching, moving the branch)
//! is done by whoever drives the synchronizer: it performs the action that
//! `step` hands out and reports the outcome as the next event. The decisions
//! stand here: a dirty mirror is never touched, a missing one is cloned, a
//! current one is left as it is, and a stale one is moved to the fetched tip.
use vstd::prelude::*;

verus! {

/// What an inspection of the local mirror found.
#[derive(Debug, Clone, Copy, PartialEq, Eq, Structural)]
pub struct MirrorStatus {
    /// The directory exists and is a clone of the repository.
    pub is_clone: bool,
    /// The working tree holds changes to tracked files that are not committed.
    pub dirty: bool,
}

/// How the fetched tip of the remote branch relates to the local tip.
#[derive(Debug, Clone, Copy, PartialEq, Eq, Structural)]
pub enum TipRelation {
    /// The two are the same commit.
    UpToDate,
    /// The fetched tip descends from the local tip.
    FastForward,
    /// The histories have diverged.
    Diverged,
}

/// The outcome of the action last handed out.
#[derive(Debug, Clone, Copy, PartialEq, Eq, Structural)]
pub enum SyncEvent {
    /// The mirror was inspected.
    Inspected(MirrorStatus),
    /// The remote branch was fetched.
    Fetched(TipRelation),
    /// The action succeeded.
    Succeeded,
    /// The action failed.
    Failed,
}

/// Why a synchronization stopped.
#[derive(Debug, Clone, Copy, PartialEq, Eq, Structural)]
pub enum SyncError {
    /// The mirror could not be inspected.
    InspectFailed,
    /// The shallow clone failed.
    CloneFailed,
    /// Fetching from the remote failed.
    FetchFailed,
    /// Moving the mirror to the fetched tip failed.
    UpdateFailed,
    /// The mirror holds uncommitted changes and was left alone.
    DirtyMirror,
    /// An event came that does not answer the action last handed out.
    OutOfOrder,
}

/// Where a synchronization stands.
#[derive(Debug, Clone, Copy, PartialEq, Eq, Structural)]
pub enum SyncPhase {
    /// Waiting for the inspection of the mirror.
    Inspecting,
    /// Waiting for the clone.
    Cloning,
    /// Waiting for the fetch.
    Fetching,
    /// Waiting for the mirror to be moved to the fetched tip.
    Updating,
    /// The mirror is up to date.
    Done,
    /// The synchronization stopped.
    Stopped(SyncError),
}

/// What the driver is to do next.
#[derive(Debug, Clone, Copy, PartialEq, Eq, Structural)]
pub enum SyncAction {
    /// Inspect the mirror, without changing it.
    Inspect,
    /// Make a shallow clone of the remote default branch.
    Clone,
    /// Fetch the remote default branch.
    Fetch,
    /// Advance the local branch to the fetched tip and update the working tree.
    FastForward,
    /// Reset the local branch and the working tree to the fetched tip.
    ResetToRemote,
    /// Report success.
    Finish,
    /// Report the error.
    Abort(SyncError),
    /// Nothing is left to do.
    Nothing,
}

/// The phase and action with which every synchronization starts.
pub open spec fn initial() -> (SyncPhase, SyncAction) {
    (SyncPhase::Inspecting, SyncAction::Inspect)
}

/// Stopping with an error.
pub open spec fn stop(e: SyncError) -> (SyncPhase, SyncAction) {
    (SyncPhase::Stopped(e), SyncAction::Abort(e))
}

/// The next phase and action, given the phase and the outcome of the last action.
pub open spec fn next(phase: SyncPhase, event: SyncEvent) -> (SyncPhase, SyncAction) {
    match phase {
        SyncPhase::Inspecting => match event {
            SyncEvent::Inspected(s) => if !s.is_clone {
                (SyncPhase::Cloning, SyncAction::Clone)
            } else if s.dirty {
                stop(SyncError::DirtyMirror)
            } else {
                (SyncPhase::Fetching, SyncAction::Fetch)
            },
            SyncEvent::Failed => stop(SyncError::InspectFailed),
            _ => stop(SyncError::OutOfOrder),
        },
        SyncPhase::Cloning => match event {
            SyncEvent::Succeeded => (SyncPhase::Done, SyncAction::Finish),
            SyncEvent::Failed => stop(SyncError::CloneFailed),
            _ => stop(SyncError::OutOfOrder),
        },
        SyncPhase::Fetching => match event {
            SyncEvent::Fetched(TipRelation::UpToDate) => (SyncPhase::Done, SyncAction::Finish),
            SyncEvent::Fetched(TipRelation::FastForward) => (
                SyncPhase::Updating,
                SyncAction::FastForward,
            ),
            SyncEvent::Fetched(TipRelation::Diverged) => (
                SyncPhase::Updating,
                SyncAction::ResetToRemote,
            ),
            SyncEvent::Failed => stop(SyncError::FetchFailed),
            _ => stop(SyncError::OutOfOrder),
        },
        SyncPhase::Updating => match event {
            SyncEvent::Succeeded => (SyncPhase::Done, SyncAction::Finish),
            SyncEvent::Failed => stop(SyncError::UpdateFailed),
            _ => stop(SyncError::OutOfOrder),
        },
        SyncPhase::Done => (SyncPhase::Done, SyncAction::Nothing),
        SyncPhase::Stopped(e) => (SyncPhase::Stopped(e), SyncAction::Nothing),
    }
}

fn stop_with(e: SyncError) -> (r: (SyncPhase, SyncAction))
    ensures
        r == stop(e),
{
    (SyncPhase::Stopped(e), SyncAction::Abort(e))
}

/// Decides the next phase and action from the phase and the outcome of the
/// last action.
pub fn step(phase: SyncPhase, event: SyncEvent) -> (r: (SyncPhase, SyncAction))
    ensures
        r == next(phase, event),
{
    match phase {
        SyncPhase::Inspecting => match event {
            SyncEvent::Inspected(s) => if !s.is_clone {
                (SyncPhase::Cloning, SyncAction::Clone)
            } else if s.dirty {
                stop_with(SyncError::DirtyMirror)
            } else {
                (SyncPhase::Fetching, SyncAction::Fetch)
            },
            SyncEvent::Failed => stop_with(SyncError::InspectFailed),
            _ => stop_with(SyncError::OutOfOrder),
        },
        SyncPhase::Cloning => match event {
            SyncEvent::Succeeded => (SyncPhase::Done, SyncAction::Finish),
            SyncEvent::Failed => stop_with(SyncError::CloneFailed),
            _ => stop_with(SyncError::OutOfOrder),
        },
        SyncPhase::Fetching => match event {
            SyncEvent::Fetched(TipRelation::UpToDate) => (SyncPhase::Done, SyncAction::Finish),
            SyncEvent::Fetched(TipRelation::FastForward) => (
                SyncPhase::Updating,
                SyncAction::FastForward,
            ),
            SyncEvent::Fetched(TipRelation::Diverged) => (
                SyncPhase::Updating,
                SyncAction::ResetToRemote,
            ),
            SyncEvent::Failed => stop_with(SyncError::FetchFailed),
            _ => stop_with(SyncError::OutOfOrder),
        },
        SyncPhase::Updating => match event {
            SyncEvent::Succeeded => (SyncPhase::Done, SyncAction::Finish),
            SyncEvent::Failed => stop_with(SyncError::UpdateFailed),
            _ => stop_with(SyncError::OutOfOrder),
        },
        SyncPhase::Done => (SyncPhase::Done, SyncAction::Nothing),
        SyncPhase::Stopped(e) => (SyncPhase::Stopped(e), SyncAction::Nothing),
    }
}

/// Whether an action may change the mirror or reach the remote.
pub open spec fn touches_mirror(a: SyncAction) -> bool {
    ||| a is Clone
    ||| a is Fetch
    ||| a is FastForward
    ||| a is ResetToRemote
}

/// The actions handed out for a run of events, starting in `phase`.
pub open spec fn actions_for(phase: SyncPhase, events: Seq<SyncEvent>) -> Seq<SyncAction>
    decreases events.len(),
{
    if events.len() == 0 {
        Seq::empty()
    } else {
        let (p, a) = next(phase, events[0]);
        seq![a] + actions_for(p, events.subrange(1, events.len() as int))
    }
}

/// The local mirror, as far as synchronization sees it: whether it is a clone,
/// whether it holds uncommitted changes, and the commit it stands on. Its
/// files are those of that commit, with the changes when it is dirty.
pub struct MirrorModel {
    pub is_clone: bool,
    pub dirty: bool,
    pub head: u64,
}

/// The outcome of an action on the mirror `m`, when the remote branch stands
/// on `tip` and `descends` tells whether `tip` descends from the mirror's head.
pub open spec fn outcome(a: SyncAction, m: MirrorModel, tip: u64, descends: bool) -> SyncEvent {
    match a {
        SyncAction::Inspect => SyncEvent::Inspected(
            MirrorStatus { is_clone: m.is_clone, dirty: m.dirty },
        ),
        SyncAction::Fetch => SyncEvent::Fetched(
            if m.head == tip {
                TipRelation::UpToDate
            } else if descends {
                TipRelation::FastForward
            } else {
                TipRelation::Diverged
            },
        ),
        _ => SyncEvent::Succeeded,
    }
}

/// The mirror after an action: a clone, an advance or a reset leaves a clean
/// clone on the remote tip; every other action leaves the mirror as it was.
pub open spec fn effect(a: SyncAction, m: MirrorModel, tip: u64) -> MirrorModel {
    match a {
        SyncAction::Clone | SyncAction::FastForward | SyncAction::ResetToRemote => MirrorModel {
            is_clone: true,
            dirty: false,
            head: tip,
        },
        _ => m,
    }
}

/// Performs `action` and then `rounds - 1` more, each chosen by `next` from the
/// outcome of the one before; gives the final phase and mirror.
pub open spec fn drive(
    phase: SyncPhase,
    action: SyncAction,
    m: MirrorModel,
    tip: u64,
    descends: bool,
    rounds: nat,
) -> (SyncPhase, MirrorModel)
    decreases rounds,
{
    if rounds == 0 {
        (phase, m)
    } else {
        let (p, a) = next(phase, outcome(action, m, tip, descends));
        drive(p, a, effect(action, m, tip), tip, descends, (rounds - 1) as nat)
    }
}

/// A whole synchronization of the mirror `m` against a remote branch on `tip`,
/// when every operation succeeds.
pub open spec fn synchronized(m: MirrorModel, tip: u64, descends: bool) -> (SyncPhase, MirrorModel) {
    drive(initial().0, initial().1, m, tip, descends, 4)
}

proof fn lemma_actions_len(phase: SyncPhase, events: Seq<SyncEvent>)
    ensures
        actions_for(phase, events).len() == events.len(),
    decreases events.len(),
{
    if events.len() > 0 {
        let (p, a) = next(phase, events[0]);
        lemma_actions_len(p, events.subrange(1, events.len() as int));
    }
}

proof fn lemma_stopped_is_idle(e: SyncError, events: Seq<SyncEvent>)
    ensures
        forall|k: int|
            0 <= k < events.len() ==> #[trigger] actions_for(SyncPhase::Stopped(e), events)[k]
                == SyncAction::Nothing,
    decreases events.len(),
{
    if events.len() > 0 {
        let rest = events.subrange(1, events.len() as int);
        lemma_stopped_is_idle(e, rest);
        lemma_actions_len(SyncPhase::Stopped(e), rest);
        let all = actions_for(SyncPhase::Stopped(e), events);
        assert(all == seq![SyncAction::Nothing] + actions_for(SyncPhase::Stopped(e), rest));
        assert forall|k: int| 0 <= k < events.len() implies #[trigger] all[k]
            == SyncAction::Nothing by {
            if k > 0 {
                assert(all[k] == actions_for(SyncPhase::Stopped(e), rest)[k - 1]);
            }
        }
    }
}

/// A mirror with uncommitted changes is never touched: once an inspection
/// reports them, the synchronization stops with `DirtyMirror`, and whatever
/// events follow, no action that clones, fetches, advances or resets is handed out.
pub proof fn lemma_dirty_mirror_left_alone(status: MirrorStatus, events: Seq<SyncEvent>)
    requires
        status.is_clone,
        status.dirty,
    ensures
        actions_for(SyncPhase::Inspecting, seq![SyncEvent::Inspected(status)] + events)[0]
            == SyncAction::Abort(SyncError::DirtyMirror),
        forall|k: int|
            0 <= k <= events.len() ==> !touches_mirror(
                #[trigger] actions_for(
                    SyncPhase::Inspecting,
                    seq![SyncEvent::Inspected(status)] + events,
                )[k],
            ),
{
    let all_events = seq![SyncEvent::Inspected(status)] + events;
    let all = actions_for(SyncPhase::Inspecting, all_events);
    assert(all_events.subrange(1, all_events.len() as int) == events);
    lemma_stopped_is_idle(SyncError::DirtyMirror, events);
    lemma_actions_len(SyncPhase::Stopped(SyncError::DirtyMirror), events);
    assert(all == seq![SyncAction::Abort(SyncError::DirtyMirror)] + actions_for(
        SyncPhase::Stopped(SyncError::DirtyMirror),
        events,
    ));
    assert forall|k: int| 0 <= k <= events.len() implies !touches_mirror(#[trigger] all[k]) by {
        if k > 0 {
            assert(all[k] == actions_for(SyncPhase::Stopped(SyncError::DirtyMirror), events)[k
                - 1]);
        }
    }
}

/// A synchronization of a dirty clone stops with `DirtyMirror` and leaves the
/// mirror exactly as it was.
pub proof fn lemma_dirty_mirror_unchanged(m: MirrorModel, tip: u64, descends: bool)
    requires
        m.is_clone,
        m.dirty,
    ensures
        synchronized(m, tip, descends) == (SyncPhase::Stopped(SyncError::DirtyMirror), m),
{
    reveal_with_fuel(drive, 5);
}

/// Synchronizing twice with no change on the remote in between: the first run
/// succeeds, and the second succeeds and leaves the mirror exactly as the first
/// left it. This holds for a missing mirror, for a mirror that is no clone, and
/// for a clean clone, whatever its history.
pub proof fn lemma_sync_idempotent(m: MirrorModel, tip: u64, descends: bool, descends_again: bool)
    requires
        !(m.is_clone && m.dirty),
    ensures
        synchronized(m, tip, descends).0 == SyncPhase::Done,
        synchronized(synchronized(m, tip, descends).1, tip, descends_again) == (
            SyncPhase::Done,
            synchronized(m, tip, descends).1,
        ),
{
    reveal_with_fuel(drive, 5);
}

} // verus!
