//! The capture-cycle state machine and the scheduler's mode choice.
//!
//! One cycle runs `Enumerating → Capturing → (Composing → Recompressing →
//! CleaningUp | straight to Done in split mode) → Done`, or ends in
//! `Failed`. The machine holds every decision of the cycle; the driver
//! around it performs the returned action (enumerate, poll, persist,
//! recompress, delete) and reports what happened as an event. Per-display
//! artifacts are persisted as they are captured. With compression on, the
//! machine orders one recompression per persisted artifact: in split mode
//! each per-display artifact right after it is persisted, in combined mode
//! the merged artifact. In combined mode the per-display artifacts are
//! intermediates, deleted one by one only after the merged artifact — and,
//! if configured, its recompression — has succeeded.

use vstd::prelude::*;

use crate::errors::CycleError;

verus! {

/// Configuration of one capture cycle.
#[derive(Clone, Copy, Debug, PartialEq, Eq, Structural)]
pub struct CycleConfig {
    /// Compose the per-display images into one merged artifact.
    pub combine: bool,
    /// Invoke the external lossy recompressor on each persisted artifact.
    pub compress: bool,
}

/// Phase of one capture cycle.
#[derive(Clone, Copy, Debug, PartialEq, Eq, Structural)]
pub enum CyclePhase {
    /// Listing the connected displays.
    Enumerating,
    /// Polling displays one by one until each yields a frame.
    Capturing,
    /// Composing the per-display images and persisting the merged artifact.
    Composing,
    /// Running the external recompressor on the artifact just persisted:
    /// the newest per-display artifact in split mode, the merged artifact
    /// in combined mode.
    Recompressing,
    /// Deleting the per-display intermediates of a merged cycle.
    CleaningUp,
    /// The cycle completed.
    Done,
    /// The cycle aborted; nothing of it is retried.
    Failed,
}

/// What the driver must do next.
#[derive(Clone, Copy, Debug, PartialEq, Eq, Structural)]
pub enum CycleAction {
    /// Enumerate the displays.
    ListSources,
    /// Poll display `index` once; on "not ready", sleep briefly and report
    /// the event, and the poll will be asked for again.
    PollSource { index: usize },
    /// Compose all per-display images and persist the merged artifact.
    ComposeAndPersist,
    /// Run the recompressor on the merged artifact.
    RecompressMerged,
    /// Run the recompressor on per-display artifact `index`, just
    /// persisted (split mode).
    RecompressIntermediate { index: usize },
    /// Delete per-display intermediate `index`.
    DeleteIntermediate { index: usize },
    /// Report the failure and stop; a half-working display set is not
    /// retried.
    Report { error: CycleError },
    /// The cycle is complete.
    Finish,
}

/// What the driver reports back after performing an action.
#[derive(Clone, Copy, Debug, PartialEq, Eq, Structural)]
pub enum CycleEvent {
    /// Enumeration finished and found `count` displays.
    SourcesListed { count: usize },
    /// The polled display had no frame yet; transient, retried.
    FrameNotReady,
    /// The polled display yielded a frame, which was transcoded and
    /// persisted as a per-display artifact.
    FrameCaptured,
    /// The polled display failed for any reason other than "not ready".
    SourceFailed,
    /// The merged artifact was persisted.
    MergedPersisted,
    /// The compositor failed.
    CompositionFailed { error: crate::errors::CompositionError },
    /// An artifact could not be encoded or written.
    PersistFailed,
    /// The recompressor succeeded.
    Recompressed,
    /// The recompressor exited abnormally.
    RecompressFailed,
    /// One per-display intermediate was deleted.
    IntermediateDeleted,
    /// A per-display intermediate could not be deleted.
    DeleteFailed,
}

/// State of one capture cycle.
#[derive(Clone, Copy, Debug)]
pub struct CycleState {
    pub config: CycleConfig,
    pub phase: CyclePhase,
    /// Displays found by enumeration.
    pub n_sources: usize,
    /// Per-display artifacts captured and persisted so far; in combined
    /// mode, `captured - deleted` intermediate files are on disk.
    pub captured: usize,
    /// Per-display intermediates deleted so far.
    pub deleted: usize,
    /// The merged artifact has been persisted.
    pub merged_persisted: bool,
    /// The failure that ended the cycle, if it failed.
    pub failure: Option<CycleError>,
}

impl CycleState {
    /// Validity of a cycle state. In particular: intermediates are only
    /// ever deleted in combined mode after the merged artifact was
    /// persisted, and a completed combined cycle has deleted them all.
    pub open spec fn inv(&self) -> bool {
        &&& self.captured <= self.n_sources
        &&& self.deleted <= self.captured
        &&& (self.deleted > 0 ==> self.config.combine && self.merged_persisted)
        &&& (self.merged_persisted ==> self.config.combine && self.captured == self.n_sources
            && self.n_sources > 0)
        &&& match self.phase {
            CyclePhase::Enumerating => self.n_sources == 0 && self.captured == 0 && self.deleted
                == 0 && !self.merged_persisted && self.failure is None,
            CyclePhase::Capturing => self.captured < self.n_sources && self.deleted == 0
                && !self.merged_persisted && self.failure is None,
            CyclePhase::Composing => self.config.combine && self.n_sources > 0 && self.captured
                == self.n_sources && self.deleted == 0 && !self.merged_persisted
                && self.failure is None,
            CyclePhase::Recompressing => self.config.compress && self.deleted == 0
                && self.failure is None && (if self.config.combine {
                self.merged_persisted
            } else {
                1 <= self.captured <= self.n_sources && !self.merged_persisted
            }),
            CyclePhase::CleaningUp => self.config.combine && self.merged_persisted && self.deleted
                < self.captured && self.failure is None,
            CyclePhase::Done => self.failure is None && (self.config.combine && self.n_sources > 0
                ==> self.merged_persisted && self.deleted == self.captured),
            CyclePhase::Failed => self.failure is Some,
        }
    }

    /// `self`, failed with `e`.
    pub open spec fn failed_with(self, e: CycleError) -> CycleState {
        CycleState { phase: CyclePhase::Failed, failure: Some(e), ..self }
    }
}

/// The transition relation of the cycle: performing `ev` in state `pre`
/// yields `post`. An event that the current phase does not expect leaves
/// the state unchanged; the `Done` and `Failed` phases are terminal.
pub open spec fn steps_to(pre: CycleState, ev: CycleEvent, post: CycleState) -> bool {
    match pre.phase {
        CyclePhase::Enumerating => match ev {
            CycleEvent::SourcesListed { count } => if count == 0 {
                post == pre.failed_with(CycleError::NoDisplaysFound)
            } else {
                post == CycleState { phase: CyclePhase::Capturing, n_sources: count, ..pre }
            },
            _ => post == pre,
        },
        CyclePhase::Capturing => match ev {
            CycleEvent::FrameNotReady => post == pre,
            CycleEvent::FrameCaptured => if pre.config.compress && !pre.config.combine {
                post == CycleState {
                    phase: CyclePhase::Recompressing,
                    captured: (pre.captured + 1) as usize,
                    ..pre
                }
            } else if pre.captured + 1 == pre.n_sources {
                if pre.config.combine {
                    post == CycleState {
                        phase: CyclePhase::Composing,
                        captured: pre.n_sources,
                        ..pre
                    }
                } else {
                    post == CycleState { phase: CyclePhase::Done, captured: pre.n_sources, ..pre }
                }
            } else {
                post == CycleState { captured: (pre.captured + 1) as usize, ..pre }
            },
            CycleEvent::SourceFailed => post == pre.failed_with(CycleError::SourceFatal),
            CycleEvent::PersistFailed => post == pre.failed_with(CycleError::Persistence),
            _ => post == pre,
        },
        CyclePhase::Composing => match ev {
            CycleEvent::MergedPersisted => if pre.config.compress {
                post == CycleState {
                    phase: CyclePhase::Recompressing,
                    merged_persisted: true,
                    ..pre
                }
            } else {
                post == CycleState { phase: CyclePhase::CleaningUp, merged_persisted: true, ..pre }
            },
            CycleEvent::CompositionFailed { error } => post == pre.failed_with(
                CycleError::Composition(error),
            ),
            CycleEvent::PersistFailed => post == pre.failed_with(CycleError::Persistence),
            _ => post == pre,
        },
        CyclePhase::Recompressing => match ev {
            CycleEvent::Recompressed => if pre.config.combine {
                post == CycleState { phase: CyclePhase::CleaningUp, ..pre }
            } else if pre.captured == pre.n_sources {
                post == CycleState { phase: CyclePhase::Done, ..pre }
            } else {
                post == CycleState { phase: CyclePhase::Capturing, ..pre }
            },
            CycleEvent::RecompressFailed => post == pre.failed_with(CycleError::ExternalTool),
            _ => post == pre,
        },
        CyclePhase::CleaningUp => match ev {
            CycleEvent::IntermediateDeleted => if pre.deleted + 1 == pre.captured {
                post == CycleState { phase: CyclePhase::Done, deleted: pre.captured, ..pre }
            } else {
                post == CycleState { deleted: (pre.deleted + 1) as usize, ..pre }
            },
            CycleEvent::DeleteFailed => post == pre.failed_with(CycleError::Persistence),
            _ => post == pre,
        },
        CyclePhase::Done => post == pre,
        CyclePhase::Failed => post == pre,
    }
}

/// The state a cycle starts in.
pub fn init(config: CycleConfig) -> (s: CycleState)
    ensures
        s.inv(),
        s.phase == CyclePhase::Enumerating,
        s.config == config,
{
    CycleState {
        config,
        phase: CyclePhase::Enumerating,
        n_sources: 0,
        captured: 0,
        deleted: 0,
        merged_persisted: false,
        failure: None,
    }
}

impl CycleState {
    /// The action the driver must perform in this state.
    pub fn next_action(&self) -> (a: CycleAction)
        requires
            self.inv(),
        ensures
            match self.phase {
                CyclePhase::Enumerating => a == CycleAction::ListSources,
                CyclePhase::Capturing => a == (CycleAction::PollSource { index: self.captured }),
                CyclePhase::Composing => a == CycleAction::ComposeAndPersist,
                CyclePhase::Recompressing => if self.config.combine {
                    a == CycleAction::RecompressMerged
                } else {
                    a == (CycleAction::RecompressIntermediate {
                        index: (self.captured - 1) as usize,
                    })
                },
                CyclePhase::CleaningUp => a == (CycleAction::DeleteIntermediate {
                    index: self.deleted,
                }),
                CyclePhase::Done => a == CycleAction::Finish,
                CyclePhase::Failed => a == (CycleAction::Report {
                    error: self.failure->0,
                }),
            },
    {
        match self.phase {
            CyclePhase::Enumerating => CycleAction::ListSources,
            CyclePhase::Capturing => CycleAction::PollSource { index: self.captured },
            CyclePhase::Composing => CycleAction::ComposeAndPersist,
            CyclePhase::Recompressing => if self.config.combine {
                CycleAction::RecompressMerged
            } else {
                CycleAction::RecompressIntermediate { index: self.captured - 1 }
            },
            CyclePhase::CleaningUp => CycleAction::DeleteIntermediate { index: self.deleted },
            CyclePhase::Done => CycleAction::Finish,
            CyclePhase::Failed => match self.failure {
                Some(e) => CycleAction::Report { error: e },
                None => CycleAction::Report { error: CycleError::SourceFatal },
            },
        }
    }

    /// Apply one reported event. Every transition preserves the state
    /// invariant; the new state is exactly what [`steps_to`] relates the
    /// old one to.
    pub fn step(&mut self, ev: CycleEvent)
        requires
            old(self).inv(),
        ensures
            final(self).inv(),
            steps_to(*old(self), ev, *final(self)),
    {
        match self.phase {
            CyclePhase::Enumerating => match ev {
                CycleEvent::SourcesListed { count } => {
                    if count == 0 {
                        self.phase = CyclePhase::Failed;
                        self.failure = Some(CycleError::NoDisplaysFound);
                    } else {
                        self.phase = CyclePhase::Capturing;
                        self.n_sources = count;
                    }
                },
                _ => {},
            },
            CyclePhase::Capturing => match ev {
                CycleEvent::FrameCaptured => {
                    self.captured = self.captured + 1;
                    if self.config.compress && !self.config.combine {
                        self.phase = CyclePhase::Recompressing;
                    } else if self.captured == self.n_sources {
                        if self.config.combine {
                            self.phase = CyclePhase::Composing;
                        } else {
                            self.phase = CyclePhase::Done;
                        }
                    }
                },
                CycleEvent::SourceFailed => {
                    self.phase = CyclePhase::Failed;
                    self.failure = Some(CycleError::SourceFatal);
                },
                CycleEvent::PersistFailed => {
                    self.phase = CyclePhase::Failed;
                    self.failure = Some(CycleError::Persistence);
                },
                _ => {},
            },
            CyclePhase::Composing => match ev {
                CycleEvent::MergedPersisted => {
                    self.merged_persisted = true;
                    if self.config.compress {
                        self.phase = CyclePhase::Recompressing;
                    } else {
                        self.phase = CyclePhase::CleaningUp;
                    }
                },
                CycleEvent::CompositionFailed { error } => {
                    self.phase = CyclePhase::Failed;
                    self.failure = Some(CycleError::Composition(error));
                },
                CycleEvent::PersistFailed => {
                    self.phase = CyclePhase::Failed;
                    self.failure = Some(CycleError::Persistence);
                },
                _ => {},
            },
            CyclePhase::Recompressing => match ev {
                CycleEvent::Recompressed => {
                    if self.config.combine {
                        self.phase = CyclePhase::CleaningUp;
                    } else if self.captured == self.n_sources {
                        self.phase = CyclePhase::Done;
                    } else {
                        self.phase = CyclePhase::Capturing;
                    }
                },
                CycleEvent::RecompressFailed => {
                    self.phase = CyclePhase::Failed;
                    self.failure = Some(CycleError::ExternalTool);
                },
                _ => {},
            },
            CyclePhase::CleaningUp => match ev {
                CycleEvent::IntermediateDeleted => {
                    self.deleted = self.deleted + 1;
                    if self.deleted == self.captured {
                        self.phase = CyclePhase::Done;
                    }
                },
                CycleEvent::DeleteFailed => {
                    self.phase = CyclePhase::Failed;
                    self.failure = Some(CycleError::Persistence);
                },
                _ => {},
            },
            CyclePhase::Done => {},
            CyclePhase::Failed => {},
        }
    }
}

/// Cleanup ordering, read off the state invariant: as long as the merged
/// artifact has not been persisted — in particular right after capturing,
/// and after a failed merged persist — no per-display intermediate has
/// been deleted; and a combined cycle that reaches `Done` has persisted
/// the merged artifact and deleted every intermediate.
pub proof fn lemma_cleanup_ordering(s: CycleState)
    requires
        s.inv(),
    ensures
        !s.merged_persisted ==> s.deleted == 0,
        s.config.combine && s.n_sources > 0 && s.phase == CyclePhase::Done ==> s.merged_persisted
            && s.deleted == s.captured && s.captured == s.n_sources,
{
}

/// How the scheduler runs: one cycle and exit, or a cycle followed by a
/// fixed wall-clock sleep, forever. The first cycle starts immediately in
/// both modes, and cycles never overlap: the sleep separates a cycle's
/// completion from the next cycle's start.
#[derive(Clone, Copy, Debug, PartialEq, Eq, Structural)]
pub enum RunMode {
    /// Run exactly one cycle.
    Once,
    /// Run a cycle, sleep `interval_secs`, repeat forever.
    Periodic { interval_secs: u16 },
}

/// The scheduler's mode for a configured interval: zero means exactly
/// once, anything else means periodic at that many seconds.
pub fn run_mode(interval_secs: u16) -> (m: RunMode)
    ensures
        interval_secs == 0 ==> m == RunMode::Once,
        interval_secs > 0 ==> m == (RunMode::Periodic { interval_secs }),
{
    if interval_secs == 0 {
        RunMode::Once
    } else {
        RunMode::Periodic { interval_secs }
    }
}

} // verus!
