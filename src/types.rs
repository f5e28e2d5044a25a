use vstd::prelude::*;

verus! {

/// The destination of an upload: a bucket and the key of the object in it.
#[derive(Debug, Clone, PartialEq, Eq)]
pub struct UploadTarget {
    pub bucket: String,
    pub key: String,
}

impl View for UploadTarget {
    type V = (Seq<char>, Seq<char>);

    open spec fn view(&self) -> (Seq<char>, Seq<char>) {
        (self.bucket@, self.key@)
    }
}

/// The text that an optional string holds, if any.
pub open spec fn opt_text(s: Option<String>) -> Option<Seq<char>> {
    match s {
        Some(t) => Some(t@),
        None => None,
    }
}

/// The backend's receipt for one uploaded part: its 1-based number and
/// the integrity tag that the backend returned for it.
#[derive(Debug, PartialEq, Eq)]
pub struct CompletedPart {
    pub part_number: usize,
    pub e_tag: Option<String>,
}

impl View for CompletedPart {
    type V = (usize, Option<Seq<char>>);

    open spec fn view(&self) -> (usize, Option<Seq<char>>) {
        (self.part_number, opt_text(self.e_tag))
    }
}

/// The receipts of a list of parts, in order.
pub open spec fn receipts_of(parts: Seq<CompletedPart>) -> Seq<(usize, Option<Seq<char>>)> {
    parts.map_values(|p: CompletedPart| p@)
}

/// What the backend answered to the call it was last asked to make.
#[derive(Debug, PartialEq, Eq)]
pub enum Reply {
    /// The call succeeded, with the value it returned, if any: the session
    /// token for a begin, the integrity tag for a part.
    Succeeded(Option<String>),
    /// The call failed, for the reason given.
    Failed(String),
}

/// A [`Reply`] over plain values.
pub enum ReplyModel {
    Succeeded(Option<Seq<char>>),
    Failed(Seq<char>),
}

impl View for Reply {
    type V = ReplyModel;

    open spec fn view(&self) -> ReplyModel {
        match self {
            Reply::Succeeded(v) => ReplyModel::Succeeded(opt_text(*v)),
            Reply::Failed(c) => ReplyModel::Failed(c@),
        }
    }
}

/// Why an upload failed.
#[derive(Debug, PartialEq, Eq)]
pub enum FailureKind {
    /// The backend refused to open a session.
    SessionCreationFailed(String),
    /// The backend opened a session but handed back no token for it.
    SessionTokenMissing,
    /// The upload of the given part failed.
    PartUploadFailed { part_number: usize, cause: String },
    /// Every part was uploaded, but the session could not be finalized.
    FinalizationFailed(String),
}

/// A [`FailureKind`] over plain values.
pub enum FailureKindModel {
    SessionCreationFailed(Seq<char>),
    SessionTokenMissing,
    PartUploadFailed { part_number: usize, cause: Seq<char> },
    FinalizationFailed(Seq<char>),
}

impl View for FailureKind {
    type V = FailureKindModel;

    open spec fn view(&self) -> FailureKindModel {
        match self {
            FailureKind::SessionCreationFailed(c) => FailureKindModel::SessionCreationFailed(c@),
            FailureKind::SessionTokenMissing => FailureKindModel::SessionTokenMissing,
            FailureKind::PartUploadFailed { part_number, cause } => FailureKindModel::PartUploadFailed {
                part_number: *part_number,
                cause: cause@,
            },
            FailureKind::FinalizationFailed(c) => FailureKindModel::FinalizationFailed(c@),
        }
    }
}

/// A failed upload: why it failed, and the token of the session that was
/// open at the time, if one was.
#[derive(Debug, PartialEq, Eq)]
pub struct UploadFailure {
    pub kind: FailureKind,
    pub upload_id: Option<String>,
}

/// An [`UploadFailure`] over plain values.
pub struct FailureModel {
    pub kind: FailureKindModel,
    pub upload_id: Option<Seq<char>>,
}

impl View for UploadFailure {
    type V = FailureModel;

    open spec fn view(&self) -> FailureModel {
        FailureModel { kind: self.kind@, upload_id: opt_text(self.upload_id) }
    }
}

/// What the orchestrator asks of its caller next.
#[derive(Debug, PartialEq, Eq)]
pub enum Action {
    /// Open a multipart-upload session for the target.
    BeginSession,
    /// Send `length` bytes as part `part_number` of the session.
    UploadPart { upload_id: String, part_number: usize, length: usize },
    /// Assemble the session's parts, listed in order, into the object.
    FinalizeSession { upload_id: String, parts: Vec<CompletedPart> },
    /// Discard the session; whatever the backend answers is ignored.
    AbortSession { upload_id: String },
    /// The upload is over, with this outcome.
    Finish(Result<(), UploadFailure>),
}

/// An [`Action`] over plain values.
pub enum ActionModel {
    BeginSession,
    UploadPart { upload_id: Seq<char>, part_number: usize, length: usize },
    FinalizeSession { upload_id: Seq<char>, parts: Seq<(usize, Option<Seq<char>>)> },
    AbortSession { upload_id: Seq<char> },
    Finish(Result<(), FailureModel>),
}

impl View for Action {
    type V = ActionModel;

    open spec fn view(&self) -> ActionModel {
        match self {
            Action::BeginSession => ActionModel::BeginSession,
            Action::UploadPart { upload_id, part_number, length } => ActionModel::UploadPart {
                upload_id: upload_id@,
                part_number: *part_number,
                length: *length,
            },
            Action::FinalizeSession { upload_id, parts } => ActionModel::FinalizeSession {
                upload_id: upload_id@,
                parts: receipts_of(parts@),
            },
            Action::AbortSession { upload_id } => ActionModel::AbortSession { upload_id: upload_id@ },
            Action::Finish(Ok(())) => ActionModel::Finish(Ok(())),
            Action::Finish(Err(f)) => ActionModel::Finish(Err(f@)),
        }
    }
}

} // verus!
