use webrtc_sink::error::SinkError;
use webrtc_sink::link::LinkAction;
use webrtc_sink::link::LinkFailure;
use webrtc_sink::link::LinkProcess;
use webrtc_sink::link::LinkStep;
use webrtc_sink::link::UndoStep;
use webrtc_sink::link::UnlinkStep;

/// Runs a link in which one step fails, and lists what was performed.
fn run(fails: Option<LinkStep>, undo_fails: bool) -> (Vec<LinkAction>, Result<(), SinkError>) {
    let mut process = LinkProcess::start();
    let mut performed = vec![];
    while let Some(action) = process.action() {
        performed.push(action);
        let failed = match action {
            LinkAction::Link(step) => Some(step) == fails,
            LinkAction::Undo(_) => undo_fails,
        };
        process = process.advance(if failed { Err("broken".to_string()) } else { Ok(()) });
    }
    (performed, process.finish())
}

fn way_in(count: usize) -> Vec<LinkAction> {
    [
        LinkStep::BlockTeePad,
        LinkStep::AddElements,
        LinkStep::LinkQueue,
        LinkStep::LinkTee,
        LinkStep::SyncStates,
        LinkStep::UnblockTeePad,
        LinkStep::WatchTransport,
    ]
    .into_iter()
    .take(count)
    .map(LinkAction::Link)
    .collect()
}

fn failing(step: LinkStep, count: usize, undo: &[UndoStep], message: &str) {
    for undo_fails in [false, true] {
        let (performed, result) = run(Some(step), undo_fails);
        let mut expected = way_in(count);
        expected.extend(undo.iter().copied().map(LinkAction::Undo));
        assert_eq!(performed, expected);
        match result {
            Err(SinkError::LinkFailed(failure)) => {
                assert_eq!(failure, LinkFailure { step, detail: "broken".to_string() });
                assert_eq!(failure.message(), message);
            }
            other => panic!("{other:?}"),
        }
    }
}

#[test]
fn link_succeeds_in_seven_steps() {
    let (performed, result) = run(None, false);
    assert_eq!(performed, way_in(7));
    assert!(result.is_ok());
}

#[test]
fn failed_block_releases_the_pad() {
    failing(
        LinkStep::BlockTeePad,
        1,
        &[UndoStep::ReleaseTeePad],
        "Failed adding probe to Tee's src pad to block data before going to playing state",
    );
}

#[test]
fn failed_add_releases_the_pad() {
    failing(
        LinkStep::AddElements,
        2,
        &[UndoStep::ReleaseTeePad],
        "Failed to add WebRTCSink's elements to the Pipeline: broken",
    );
}

#[test]
fn failed_queue_link_is_undone() {
    failing(
        LinkStep::LinkQueue,
        3,
        &[UndoStep::ReleaseTeePad, UndoStep::RemoveElements],
        "Failed to link Queue's src pad with WebRTCBin's sink pad: broken",
    );
}

#[test]
fn failed_tee_link_is_undone() {
    failing(
        LinkStep::LinkTee,
        4,
        &[UndoStep::UnlinkQueue, UndoStep::ReleaseTeePad, UndoStep::RemoveElements],
        "Failed to link Tee's src pad with Queue's sink pad: broken",
    );
}

#[test]
fn failed_sync_is_undone() {
    failing(
        LinkStep::SyncStates,
        5,
        &[
            UndoStep::UnlinkQueue,
            UndoStep::UnlinkTee,
            UndoStep::ReleaseTeePad,
            UndoStep::RemoveElements,
        ],
        "Failed to synchronize children states: broken",
    );
}

#[test]
fn unblocking_does_not_fail() {
    let (performed, result) = run(Some(LinkStep::UnblockTeePad), false);
    assert_eq!(performed, way_in(7));
    assert!(result.is_ok());
}

#[test]
fn failed_watch_is_not_undone() {
    failing(
        LinkStep::WatchTransport,
        7,
        &[],
        "Failed getting transceiver's RTP sender element",
    );
}

#[test]
fn finished_processes_stay_finished() {
    assert_eq!(LinkProcess::Linked.advance(Err("late".to_string())), LinkProcess::Linked);
    let failure = || LinkFailure { step: LinkStep::LinkTee, detail: "broken".to_string() };
    assert_eq!(
        LinkProcess::Failed(failure()).advance(Ok(())),
        LinkProcess::Failed(failure())
    );
    assert_eq!(LinkProcess::Linked.action(), None);
}

#[test]
fn the_way_out_is_walked_to_its_end() {
    let mut step = Some(UnlinkStep::BlockTeePad);
    let mut performed = vec![];
    while let Some(current) = step {
        performed.push((current, current.may_fail()));
        step = current.following();
    }
    assert_eq!(
        performed,
        vec![
            (UnlinkStep::BlockTeePad, true),
            (UnlinkStep::UnlinkTee, true),
            (UnlinkStep::ReleaseTeePad, true),
            (UnlinkStep::RemoveElements, true),
            (UnlinkStep::AddToTemporaryPipeline, false),
            (UnlinkStep::PostEos, false),
            (UnlinkStep::SetNull, false),
        ]
    );
}
