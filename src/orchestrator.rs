use vstd::prelude::*;
use crate::model::{MachineModel, PhaseModel};
use crate::types::{
    opt_text, receipts_of, Action, ActionModel, CompletedPart, FailureKind, Reply, UploadFailure, UploadTarget,
};

verus! {

enum Phase {
    Beginning,
    Uploading { upload_id: String, parts: Vec<CompletedPart> },
    Finalizing { upload_id: String },
    Aborting { upload_id: String, kind: FailureKind },
    Finished,
}

impl View for Phase {
    type V = PhaseModel;

    closed spec fn view(&self) -> PhaseModel {
        match self {
            Phase::Beginning => PhaseModel::Beginning,
            Phase::Uploading { upload_id, parts } => PhaseModel::Uploading {
                upload_id: upload_id@,
                parts: receipts_of(parts@),
            },
            Phase::Finalizing { upload_id } => PhaseModel::Finalizing { upload_id: upload_id@ },
            Phase::Aborting { upload_id, kind } => PhaseModel::Aborting {
                upload_id: upload_id@,
                kind: kind@,
            },
            Phase::Finished => PhaseModel::Finished,
        }
    }
}

/// Drives one multipart upload: begin, each part in order, finalize, and
/// abort on the first failure after the session is open.
///
/// The caller makes each call that an [`Action`] asks for and hands the
/// backend's answer to [`Orchestrator::step`], until the action is
/// `Finish`.
pub struct Orchestrator {
    target: UploadTarget,
    sizes: Vec<usize>,
    phase: Phase,
}

impl View for Orchestrator {
    type V = MachineModel;

    closed spec fn view(&self) -> MachineModel {
        MachineModel { target: self.target@, sizes: self.sizes@, phase: self.phase@ }
    }
}

impl Orchestrator {
    /// Sets up the upload of parts of the given sizes, in order, to
    /// `target`, and asks for the session to be opened. No size list is
    /// refused: with none the session is finalized with zero parts.
    pub fn start(target: UploadTarget, sizes: Vec<usize>) -> (r: (Orchestrator, Action))
        ensures
            r.0@ == MachineModel::initial(target@, sizes@),
            r.0@.wf(),
            r.1@ == ActionModel::BeginSession,
    {
        proof {
            assert(sizes@.len() == sizes.len());
        }
        (Orchestrator { target, sizes, phase: Phase::Beginning }, Action::BeginSession)
    }

    /// The destination of the upload.
    pub fn target(&self) -> (r: &UploadTarget)
        ensures
            r@ == self@.target,
    {
        &self.target
    }

    /// Whether the last action was `Finish`: no further answer is taken.
    pub fn is_finished(&self) -> (r: bool)
        ensures
            r == self@.is_finished(),
    {
        match self.phase {
            Phase::Finished => true,
            _ => false,
        }
    }

    /// Takes the backend's answer to the last action and returns the next
    /// one.
    pub fn step(&mut self, reply: Reply) -> (action: Action)
        requires
            old(self)@.wf(),
            !old(self)@.is_finished(),
        ensures
            final(self)@.wf(),
            (final(self)@, action@) == old(self)@.next(reply@),
    {
        let mut phase = Phase::Finished;
        std::mem::swap(&mut phase, &mut self.phase);
        match phase {
            Phase::Beginning => match reply {
                Reply::Succeeded(Some(upload_id)) => {
                    if self.sizes.len() == 0 {
                        self.phase = Phase::Finalizing { upload_id: upload_id.clone() };
                        let parts: Vec<CompletedPart> = Vec::new();
                        proof {
                            assert(receipts_of(parts@) =~= Seq::empty());
                        }
                        Action::FinalizeSession { upload_id, parts }
                    } else {
                        let length = self.sizes[0];
                        let parts: Vec<CompletedPart> = Vec::new();
                        proof {
                            assert(receipts_of(parts@) =~= Seq::empty());
                        }
                        self.phase = Phase::Uploading { upload_id: upload_id.clone(), parts };
                        Action::UploadPart { upload_id, part_number: 1, length }
                    }
                },
                Reply::Succeeded(None) => Action::Finish(
                    Err(UploadFailure { kind: FailureKind::SessionTokenMissing, upload_id: None }),
                ),
                Reply::Failed(cause) => Action::Finish(
                    Err(UploadFailure { kind: FailureKind::SessionCreationFailed(cause), upload_id: None }),
                ),
            },
            Phase::Uploading { upload_id, mut parts } => match reply {
                Reply::Succeeded(e_tag) => {
                    let ghost before = parts@;
                    let part_number = parts.len() + 1;
                    parts.push(CompletedPart { part_number, e_tag });
                    proof {
                        assert(receipts_of(parts@) =~= receipts_of(before).push(
                            (part_number, opt_text(e_tag)),
                        ));
                    }
                    if parts.len() < self.sizes.len() {
                        let length = self.sizes[parts.len()];
                        let next_number = parts.len() + 1;
                        self.phase = Phase::Uploading { upload_id: upload_id.clone(), parts };
                        Action::UploadPart { upload_id, part_number: next_number, length }
                    } else {
                        self.phase = Phase::Finalizing { upload_id: upload_id.clone() };
                        Action::FinalizeSession { upload_id, parts }
                    }
                },
                Reply::Failed(cause) => {
                    let part_number = parts.len() + 1;
                    self.phase = Phase::Aborting {
                        upload_id: upload_id.clone(),
                        kind: FailureKind::PartUploadFailed { part_number, cause },
                    };
                    Action::AbortSession { upload_id }
                },
            },
            Phase::Finalizing { upload_id } => match reply {
                Reply::Succeeded(_) => Action::Finish(Ok(())),
                Reply::Failed(cause) => {
                    self.phase = Phase::Aborting {
                        upload_id: upload_id.clone(),
                        kind: FailureKind::FinalizationFailed(cause),
                    };
                    Action::AbortSession { upload_id }
                },
            },
            Phase::Aborting { upload_id, kind } => Action::Finish(
                Err(UploadFailure { kind, upload_id: Some(upload_id) }),
            ),
            Phase::Finished => vstd::pervasive::unreached(),
        }
    }
}

} // verus!
