use vstd::prelude::*;
use crate::types::{ActionModel, FailureKindModel, FailureModel, ReplyModel};

verus! {

/// Where an upload stands, as the orchestrator sees it.
pub enum PhaseModel {
    /// Waiting for the backend to open a session.
    Beginning,
    /// Waiting for part `parts.len() + 1`; `parts` are the receipts so far.
    Uploading { upload_id: Seq<char>, parts: Seq<(usize, Option<Seq<char>>)> },
    /// Waiting for the backend to finalize the session.
    Finalizing { upload_id: Seq<char> },
    /// Waiting for the backend to abort the session after a failure.
    Aborting { upload_id: Seq<char>, kind: FailureKindModel },
    /// The outcome has been handed out; nothing more happens.
    Finished,
}

/// An upload in progress: its target, the sizes of its parts in order,
/// and its phase.
pub struct MachineModel {
    pub target: (Seq<char>, Seq<char>),
    pub sizes: Seq<usize>,
    pub phase: PhaseModel,
}

/// The receipts of the first parts of an upload, numbered from 1, with
/// the integrity tags given.
pub open spec fn numbered(tags: Seq<Option<Seq<char>>>) -> Seq<(usize, Option<Seq<char>>)> {
    Seq::new(tags.len(), |i: int| ((i + 1) as usize, tags[i]))
}

impl MachineModel {
    /// The invariant of every state that the orchestrator reaches.
    pub open spec fn wf(self) -> bool {
        &&& self.sizes.len() <= usize::MAX
        &&& match self.phase {
            PhaseModel::Uploading { parts, .. } => {
                &&& parts.len() < self.sizes.len()
                &&& forall|i: int| 0 <= i < parts.len() ==> #[trigger] parts[i].0 == i + 1
            },
            _ => true,
        }
    }

    /// Whether the outcome has been handed out.
    pub open spec fn is_finished(self) -> bool {
        self.phase is Finished
    }

    /// The state from which the first call, `BeginSession`, was asked for.
    pub open spec fn initial(target: (Seq<char>, Seq<char>), sizes: Seq<usize>) -> MachineModel {
        MachineModel { target, sizes, phase: PhaseModel::Beginning }
    }

    /// The same upload in another phase.
    pub open spec fn with_phase(self, phase: PhaseModel) -> MachineModel {
        MachineModel { phase, ..self }
    }

    /// The call that sends part `number` (1-based) of the session.
    pub open spec fn upload_call(self, upload_id: Seq<char>, number: int) -> ActionModel {
        ActionModel::UploadPart {
            upload_id,
            part_number: number as usize,
            length: self.sizes[number - 1],
        }
    }

    /// The state and the next action after the backend answers `reply`.
    pub open spec fn next(self, reply: ReplyModel) -> (MachineModel, ActionModel)
        recommends
            !self.is_finished(),
    {
        match self.phase {
            PhaseModel::Beginning => match reply {
                ReplyModel::Succeeded(Some(upload_id)) => if self.sizes.len() == 0 {
                    (
                        self.with_phase(PhaseModel::Finalizing { upload_id }),
                        ActionModel::FinalizeSession { upload_id, parts: Seq::empty() },
                    )
                } else {
                    (
                        self.with_phase(PhaseModel::Uploading { upload_id, parts: Seq::empty() }),
                        self.upload_call(upload_id, 1),
                    )
                },
                ReplyModel::Succeeded(None) => (
                    self.with_phase(PhaseModel::Finished),
                    ActionModel::Finish(
                        Err(FailureModel { kind: FailureKindModel::SessionTokenMissing, upload_id: None }),
                    ),
                ),
                ReplyModel::Failed(cause) => (
                    self.with_phase(PhaseModel::Finished),
                    ActionModel::Finish(
                        Err(
                            FailureModel {
                                kind: FailureKindModel::SessionCreationFailed(cause),
                                upload_id: None,
                            },
                        ),
                    ),
                ),
            },
            PhaseModel::Uploading { upload_id, parts } => match reply {
                ReplyModel::Succeeded(tag) => {
                    let done = parts.push(((parts.len() + 1) as usize, tag));
                    if done.len() < self.sizes.len() {
                        (
                            self.with_phase(PhaseModel::Uploading { upload_id, parts: done }),
                            self.upload_call(upload_id, done.len() + 1 as int),
                        )
                    } else {
                        (
                            self.with_phase(PhaseModel::Finalizing { upload_id }),
                            ActionModel::FinalizeSession { upload_id, parts: done },
                        )
                    }
                },
                ReplyModel::Failed(cause) => (
                    self.with_phase(
                        PhaseModel::Aborting {
                            upload_id,
                            kind: FailureKindModel::PartUploadFailed {
                                part_number: (parts.len() + 1) as usize,
                                cause,
                            },
                        },
                    ),
                    ActionModel::AbortSession { upload_id },
                ),
            },
            PhaseModel::Finalizing { upload_id } => match reply {
                ReplyModel::Succeeded(_) => (
                    self.with_phase(PhaseModel::Finished),
                    ActionModel::Finish(Ok(())),
                ),
                ReplyModel::Failed(cause) => (
                    self.with_phase(
                        PhaseModel::Aborting {
                            upload_id,
                            kind: FailureKindModel::FinalizationFailed(cause),
                        },
                    ),
                    ActionModel::AbortSession { upload_id },
                ),
            },
            PhaseModel::Aborting { upload_id, kind } => (
                self.with_phase(PhaseModel::Finished),
                ActionModel::Finish(Err(FailureModel { kind, upload_id: Some(upload_id) })),
            ),
            PhaseModel::Finished => (self, arbitrary()),
        }
    }
}

} // verus!
