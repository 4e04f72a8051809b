use screenlapse::cycle::{
    init, run_mode, CycleAction, CycleConfig, CycleEvent, CyclePhase, CycleState, RunMode,
};
use screenlapse::errors::{CompositionError, CycleError};

fn advance(s: &mut CycleState, ev: CycleEvent) {
    s.step(ev);
}

#[test]
fn scheduler_runs_once_for_zero_interval() {
    assert_eq!(run_mode(0), RunMode::Once);
    assert_eq!(run_mode(30), RunMode::Periodic { interval_secs: 30 });
}

#[test]
fn zero_displays_fails_the_cycle() {
    let mut s = init(CycleConfig { combine: true, compress: false });
    assert_eq!(s.next_action(), CycleAction::ListSources);
    advance(&mut s, CycleEvent::SourcesListed { count: 0 });
    assert_eq!(s.phase, CyclePhase::Failed);
    assert_eq!(s.next_action(), CycleAction::Report { error: CycleError::NoDisplaysFound });
}

#[test]
fn combined_cycle_deletes_intermediates_only_after_merge() {
    let mut s = init(CycleConfig { combine: true, compress: false });
    advance(&mut s, CycleEvent::SourcesListed { count: 2 });
    assert_eq!(s.phase, CyclePhase::Capturing);
    assert_eq!(s.next_action(), CycleAction::PollSource { index: 0 });

    // "Not ready" is transient: the same display is polled again.
    advance(&mut s, CycleEvent::FrameNotReady);
    assert_eq!(s.next_action(), CycleAction::PollSource { index: 0 });

    advance(&mut s, CycleEvent::FrameCaptured);
    assert_eq!(s.next_action(), CycleAction::PollSource { index: 1 });
    advance(&mut s, CycleEvent::FrameCaptured);

    // Both intermediates persisted, none deleted before the merge.
    assert_eq!(s.phase, CyclePhase::Composing);
    assert_eq!(s.captured, 2);
    assert_eq!(s.deleted, 0);
    assert_eq!(s.next_action(), CycleAction::ComposeAndPersist);

    advance(&mut s, CycleEvent::MergedPersisted);
    assert_eq!(s.phase, CyclePhase::CleaningUp);
    assert_eq!(s.next_action(), CycleAction::DeleteIntermediate { index: 0 });
    advance(&mut s, CycleEvent::IntermediateDeleted);
    assert_eq!(s.next_action(), CycleAction::DeleteIntermediate { index: 1 });
    advance(&mut s, CycleEvent::IntermediateDeleted);

    assert_eq!(s.phase, CyclePhase::Done);
    assert_eq!(s.deleted, 2);
    assert_eq!(s.next_action(), CycleAction::Finish);
}

#[test]
fn failed_merge_persist_leaves_intermediates() {
    let mut s = init(CycleConfig { combine: true, compress: false });
    advance(&mut s, CycleEvent::SourcesListed { count: 2 });
    advance(&mut s, CycleEvent::FrameCaptured);
    advance(&mut s, CycleEvent::FrameCaptured);
    assert_eq!(s.phase, CyclePhase::Composing);

    advance(&mut s, CycleEvent::PersistFailed);
    assert_eq!(s.phase, CyclePhase::Failed);
    assert_eq!(s.next_action(), CycleAction::Report { error: CycleError::Persistence });
    // Nothing was deleted: both intermediates are still on disk.
    assert_eq!(s.deleted, 0);
    assert_eq!(s.captured, 2);
}

#[test]
fn composition_failure_is_fatal_and_leaves_intermediates() {
    let mut s = init(CycleConfig { combine: true, compress: false });
    advance(&mut s, CycleEvent::SourcesListed { count: 2 });
    advance(&mut s, CycleEvent::FrameCaptured);
    advance(&mut s, CycleEvent::FrameCaptured);
    advance(&mut s, CycleEvent::CompositionFailed { error: CompositionError::NoInputImages });
    assert_eq!(s.phase, CyclePhase::Failed);
    assert_eq!(
        s.next_action(),
        CycleAction::Report { error: CycleError::Composition(CompositionError::NoInputImages) }
    );
    assert_eq!(s.deleted, 0);
}

#[test]
fn split_mode_skips_composition_and_cleanup() {
    let mut s = init(CycleConfig { combine: false, compress: false });
    advance(&mut s, CycleEvent::SourcesListed { count: 2 });
    advance(&mut s, CycleEvent::FrameCaptured);
    advance(&mut s, CycleEvent::FrameCaptured);
    assert_eq!(s.phase, CyclePhase::Done);
    assert!(!s.merged_persisted);
    assert_eq!(s.deleted, 0);
}

#[test]
fn split_mode_recompresses_each_artifact_once() {
    let mut s = init(CycleConfig { combine: false, compress: true });
    advance(&mut s, CycleEvent::SourcesListed { count: 2 });

    advance(&mut s, CycleEvent::FrameCaptured);
    assert_eq!(s.phase, CyclePhase::Recompressing);
    assert_eq!(s.next_action(), CycleAction::RecompressIntermediate { index: 0 });
    advance(&mut s, CycleEvent::Recompressed);
    assert_eq!(s.phase, CyclePhase::Capturing);
    assert_eq!(s.next_action(), CycleAction::PollSource { index: 1 });

    advance(&mut s, CycleEvent::FrameCaptured);
    assert_eq!(s.next_action(), CycleAction::RecompressIntermediate { index: 1 });
    advance(&mut s, CycleEvent::Recompressed);

    assert_eq!(s.phase, CyclePhase::Done);
    assert!(!s.merged_persisted);
    assert_eq!(s.deleted, 0);
}

#[test]
fn split_mode_recompress_failure_is_fatal() {
    let mut s = init(CycleConfig { combine: false, compress: true });
    advance(&mut s, CycleEvent::SourcesListed { count: 2 });
    advance(&mut s, CycleEvent::FrameCaptured);
    assert_eq!(s.phase, CyclePhase::Recompressing);
    advance(&mut s, CycleEvent::RecompressFailed);
    assert_eq!(s.phase, CyclePhase::Failed);
    assert_eq!(s.next_action(), CycleAction::Report { error: CycleError::ExternalTool });
}

#[test]
fn compressed_combined_cycle_recompresses_merged_artifact() {
    let mut s = init(CycleConfig { combine: true, compress: true });
    advance(&mut s, CycleEvent::SourcesListed { count: 1 });
    advance(&mut s, CycleEvent::FrameCaptured);
    advance(&mut s, CycleEvent::MergedPersisted);
    assert_eq!(s.phase, CyclePhase::Recompressing);
    assert_eq!(s.next_action(), CycleAction::RecompressMerged);
    advance(&mut s, CycleEvent::Recompressed);
    assert_eq!(s.phase, CyclePhase::CleaningUp);
    advance(&mut s, CycleEvent::IntermediateDeleted);
    assert_eq!(s.phase, CyclePhase::Done);
}

#[test]
fn recompressor_failure_is_fatal() {
    let mut s = init(CycleConfig { combine: true, compress: true });
    advance(&mut s, CycleEvent::SourcesListed { count: 1 });
    advance(&mut s, CycleEvent::FrameCaptured);
    advance(&mut s, CycleEvent::MergedPersisted);
    advance(&mut s, CycleEvent::RecompressFailed);
    assert_eq!(s.phase, CyclePhase::Failed);
    assert_eq!(s.next_action(), CycleAction::Report { error: CycleError::ExternalTool });
}

#[test]
fn source_failure_aborts_the_cycle() {
    let mut s = init(CycleConfig { combine: true, compress: false });
    advance(&mut s, CycleEvent::SourcesListed { count: 3 });
    advance(&mut s, CycleEvent::FrameCaptured);
    advance(&mut s, CycleEvent::SourceFailed);
    assert_eq!(s.phase, CyclePhase::Failed);
    assert_eq!(s.next_action(), CycleAction::Report { error: CycleError::SourceFatal });
}
