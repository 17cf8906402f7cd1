use chain_lookup::{step, MirrorStatus, SyncAction, SyncError, SyncEvent, SyncPhase, TipRelation};

fn inspected(is_clone: bool, dirty: bool) -> SyncEvent {
    SyncEvent::Inspected(MirrorStatus { is_clone, dirty })
}

#[test]
fn missing_mirror_is_cloned() {
    assert_eq!(step(SyncPhase::Inspecting, inspected(false, false)), (SyncPhase::Cloning, SyncAction::Clone));
    assert_eq!(step(SyncPhase::Cloning, SyncEvent::Succeeded), (SyncPhase::Done, SyncAction::Finish));
}

#[test]
fn clone_failure_stops() {
    let e = SyncError::CloneFailed;
    assert_eq!(step(SyncPhase::Cloning, SyncEvent::Failed), (SyncPhase::Stopped(e), SyncAction::Abort(e)));
}

#[test]
fn dirty_mirror_stops_before_fetch() {
    let e = SyncError::DirtyMirror;
    let (phase, action) = step(SyncPhase::Inspecting, inspected(true, true));
    assert_eq!((phase, action), (SyncPhase::Stopped(e), SyncAction::Abort(e)));
    for event in [SyncEvent::Succeeded, SyncEvent::Failed, SyncEvent::Fetched(TipRelation::FastForward), inspected(true, false)] {
        assert_eq!(step(phase, event), (phase, SyncAction::Nothing));
    }
}

#[test]
fn clean_clone_is_fetched_and_advanced() {
    assert_eq!(step(SyncPhase::Inspecting, inspected(true, false)), (SyncPhase::Fetching, SyncAction::Fetch));
    assert_eq!(
        step(SyncPhase::Fetching, SyncEvent::Fetched(TipRelation::FastForward)),
        (SyncPhase::Updating, SyncAction::FastForward)
    );
    assert_eq!(step(SyncPhase::Updating, SyncEvent::Succeeded), (SyncPhase::Done, SyncAction::Finish));
}

#[test]
fn up_to_date_clone_is_left_alone() {
    assert_eq!(
        step(SyncPhase::Fetching, SyncEvent::Fetched(TipRelation::UpToDate)),
        (SyncPhase::Done, SyncAction::Finish)
    );
    assert_eq!(step(SyncPhase::Done, SyncEvent::Succeeded), (SyncPhase::Done, SyncAction::Nothing));
}

#[test]
fn diverged_clone_is_reset() {
    assert_eq!(
        step(SyncPhase::Fetching, SyncEvent::Fetched(TipRelation::Diverged)),
        (SyncPhase::Updating, SyncAction::ResetToRemote)
    );
}

#[test]
fn failures_give_their_errors() {
    let cases = [
        (SyncPhase::Inspecting, SyncError::InspectFailed),
        (SyncPhase::Fetching, SyncError::FetchFailed),
        (SyncPhase::Updating, SyncError::UpdateFailed),
    ];
    for (phase, e) in cases {
        assert_eq!(step(phase, SyncEvent::Failed), (SyncPhase::Stopped(e), SyncAction::Abort(e)));
    }
}

#[test]
fn out_of_order_event_stops() {
    let e = SyncError::OutOfOrder;
    assert_eq!(step(SyncPhase::Cloning, inspected(true, false)), (SyncPhase::Stopped(e), SyncAction::Abort(e)));
    assert_eq!(step(SyncPhase::Inspecting, SyncEvent::Succeeded), (SyncPhase::Stopped(e), SyncAction::Abort(e)));
}

#[test]
fn second_sync_of_fresh_clone_changes_nothing() {
    // First run: a missing mirror is cloned.
    let (p, a) = step(SyncPhase::Inspecting, inspected(false, false));
    assert_eq!(a, SyncAction::Clone);
    assert_eq!(step(p, SyncEvent::Succeeded).0, SyncPhase::Done);
    // Second run: the clean clone is fetched, found current, and finished.
    let (p, a) = step(SyncPhase::Inspecting, inspected(true, false));
    assert_eq!(a, SyncAction::Fetch);
    let (p, a) = step(p, SyncEvent::Fetched(TipRelation::UpToDate));
    assert_eq!((p, a), (SyncPhase::Done, SyncAction::Finish));
}
