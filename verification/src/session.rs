//! The exchange with the storage backend that creates one region reference.
//!
//! The backend is asked one thing at a time: to copy the parent's
//! dataspace, to select the hyperslab on the copy, to create the reference,
//! and to release the copy. A session says what to ask next and takes the
//! answer; it never ends while the copy is still held.
use crate::reference::{BackendReply, RegionRequest};
use vstd::prelude::*;

verus! {

/// How far the exchange has come.
#[derive(Clone, Debug, PartialEq, Eq)]
pub enum Stage {
    /// Nothing was asked yet; no dataspace copy is held.
    Copying,
    /// The copy `space` is held and nothing is selected on it yet.
    Selecting { space: i64 },
    /// The hyperslab is selected on `space`.
    Creating { space: i64 },
    /// The outcome is known; `space` has still to be released.
    Releasing { space: i64, reply: BackendReply },
    /// The exchange is over and no copy is held.
    Finished { reply: BackendReply },
}

/// What the backend is to be asked next.
#[derive(Clone, Debug, PartialEq, Eq)]
pub enum Step {
    /// Make a private copy of the dataspace of `dataset`.
    CopySpace { dataset: i64 },
    /// Select the request's hyperslab on `space`.
    SelectHyperslab { space: i64 },
    /// Create the reference that the request describes, with the selection
    /// of `space`.
    CreateReference { space: i64 },
    /// Release `space`.
    ReleaseSpace { space: i64 },
    /// Nothing: the reply is ready.
    Finished,
}

/// What the backend said to a step.
#[derive(Clone, Debug, PartialEq, Eq)]
pub enum Answer {
    /// The dataspace was copied; `id` names the copy.
    Space { id: i64 },
    /// The step was carried out and gives nothing back.
    Done,
    /// The reference was created with these bytes.
    Bytes { bytes: [u8; 12] },
    /// The step failed.
    Failed { diagnostic: String },
}

/// One exchange with the backend, for one request.
#[derive(Clone, Debug, PartialEq, Eq)]
pub struct RegionSession {
    pub request: RegionRequest,
    pub stage: Stage,
}

impl Stage {
    /// The dataspace copy that is held at this stage, if any.
    pub open spec fn held(self) -> Option<i64> {
        match self {
            Stage::Copying => None,
            Stage::Selecting { space } => Some(space),
            Stage::Creating { space } => Some(space),
            Stage::Releasing { space, .. } => Some(space),
            Stage::Finished { .. } => None,
        }
    }

    /// The stage that follows when the backend gives `answer`. An answer
    /// that does not belong to the step that was asked changes nothing.
    ///
    /// A failure to copy the dataspace means that the backend does not take
    /// the dataset's identifier. A failure to select or to create is a
    /// failure to create the reference, and leads to the release of the
    /// copy, as success does. A failure to release ends the exchange with
    /// the outcome that was known before.
    pub open spec fn after(self, answer: Answer) -> Stage {
        match (self, answer) {
            (Stage::Copying, Answer::Space { id }) => Stage::Selecting { space: id },
            (Stage::Copying, Answer::Failed { .. }) => Stage::Finished {
                reply: BackendReply::HandleRejected,
            },
            (Stage::Selecting { space }, Answer::Done) => Stage::Creating { space },
            (Stage::Selecting { space }, Answer::Failed { diagnostic }) => Stage::Releasing {
                space,
                reply: BackendReply::CreateFailed { diagnostic },
            },
            (Stage::Creating { space }, Answer::Bytes { bytes }) => Stage::Releasing {
                space,
                reply: BackendReply::Created { bytes },
            },
            (Stage::Creating { space }, Answer::Failed { diagnostic }) => Stage::Releasing {
                space,
                reply: BackendReply::CreateFailed { diagnostic },
            },
            (Stage::Releasing { reply, .. }, Answer::Done) => Stage::Finished { reply },
            (Stage::Releasing { reply, .. }, Answer::Failed { .. }) => Stage::Finished { reply },
            (stage, _) => stage,
        }
    }

    /// How many steps are left at most before the exchange is over.
    pub open spec fn steps_left(self) -> nat {
        match self {
            Stage::Copying => 4,
            Stage::Selecting { .. } => 3,
            Stage::Creating { .. } => 2,
            Stage::Releasing { .. } => 1,
            Stage::Finished { .. } => 0,
        }
    }
}

impl RegionSession {
    /// What is to be asked at a stage of an exchange for `dataset`.
    pub open spec fn step_at(stage: Stage, dataset: i64) -> Step {
        match stage {
            Stage::Copying => Step::CopySpace { dataset },
            Stage::Selecting { space } => Step::SelectHyperslab { space },
            Stage::Creating { space } => Step::CreateReference { space },
            Stage::Releasing { space, .. } => Step::ReleaseSpace { space },
            Stage::Finished { .. } => Step::Finished,
        }
    }

    /// Opens the exchange for `request`. Nothing has been asked yet.
    pub fn begin(request: RegionRequest) -> (s: RegionSession)
        ensures
            s.request == request,
            s.stage == Stage::Copying,
    {
        RegionSession { request, stage: Stage::Copying }
    }

    /// What to ask the backend next.
    pub fn next_step(&self) -> (step: Step)
        ensures
            step == Self::step_at(self.stage, self.request.parent),
    {
        match &self.stage {
            Stage::Copying => Step::CopySpace { dataset: self.request.parent },
            Stage::Selecting { space } => Step::SelectHyperslab { space: *space },
            Stage::Creating { space } => Step::CreateReference { space: *space },
            Stage::Releasing { space, .. } => Step::ReleaseSpace { space: *space },
            Stage::Finished { .. } => Step::Finished,
        }
    }

    /// Takes the backend's answer to the step that `next_step` gave.
    pub fn advance(self, answer: Answer) -> (s: RegionSession)
        ensures
            s.request == self.request,
            s.stage == self.stage.after(answer),
    {
        let RegionSession { request, stage } = self;
        let stage = match (stage, answer) {
            (Stage::Copying, Answer::Space { id }) => Stage::Selecting { space: id },
            (Stage::Copying, Answer::Failed { .. }) => Stage::Finished {
                reply: BackendReply::HandleRejected,
            },
            (Stage::Selecting { space }, Answer::Done) => Stage::Creating { space },
            (Stage::Selecting { space }, Answer::Failed { diagnostic }) => Stage::Releasing {
                space,
                reply: BackendReply::CreateFailed { diagnostic },
            },
            (Stage::Creating { space }, Answer::Bytes { bytes }) => Stage::Releasing {
                space,
                reply: BackendReply::Created { bytes },
            },
            (Stage::Creating { space }, Answer::Failed { diagnostic }) => Stage::Releasing {
                space,
                reply: BackendReply::CreateFailed { diagnostic },
            },
            (Stage::Releasing { reply, .. }, Answer::Done) => Stage::Finished { reply },
            (Stage::Releasing { reply, .. }, Answer::Failed { .. }) => Stage::Finished { reply },
            (stage, _) => stage,
        };
        RegionSession { request, stage }
    }

    /// The backend's reply to the request, once the exchange is over.
    pub fn into_reply(self) -> (reply: Option<BackendReply>)
        ensures
            reply == (match self.stage {
                Stage::Finished { reply } => Some(reply),
                _ => None::<BackendReply>,
            }),
    {
        match self.stage {
            Stage::Finished { reply } => Some(reply),
            _ => None,
        }
    }
}

/// A dataspace copy that is held is released before the exchange ends:
/// whatever the answer, a stage that holds a copy is followed by one that
/// holds the same copy, or the step that was answered was its release.
pub proof fn lemma_copy_is_released(stage: Stage, answer: Answer, dataset: i64)
    requires
        stage.held() is Some,
    ensures
        stage.after(answer).held() == stage.held() || (stage.after(answer) is Finished
            && RegionSession::step_at(stage, dataset) == (Step::ReleaseSpace {
            space: stage.held()->Some_0,
        })),
        stage.after(answer) is Finished ==> stage.after(answer).held() is None,
{
}

/// An answer either changes nothing or brings the end nearer, so an
/// exchange is over after four answers that were taken.
pub proof fn lemma_exchange_ends(stage: Stage, answer: Answer)
    ensures
        stage.after(answer) == stage || stage.after(answer).steps_left() < stage.steps_left(),
        stage.steps_left() == 0 <==> stage is Finished,
{
}

/// A failure is never ignored: whatever was asked, it moves the exchange
/// on. While the dataspace is being copied it ends the exchange with the
/// handle rejected; while selecting or creating it leads to the release of
/// the copy, with the failure as the outcome.
pub proof fn lemma_failure_is_told(stage: Stage, diagnostic: String)
    requires
        !(stage is Finished),
    ensures
        stage.after(Answer::Failed { diagnostic }).steps_left() < stage.steps_left(),
        stage is Copying ==> stage.after(Answer::Failed { diagnostic }) == (Stage::Finished {
            reply: BackendReply::HandleRejected,
        }),
        stage is Selecting || stage is Creating ==> stage.after(Answer::Failed { diagnostic })
            == (Stage::Releasing {
            space: stage.held()->Some_0,
            reply: BackendReply::CreateFailed { diagnostic },
        }),
{
}

/// Where the backend carries out every step, the exchange ends with the
/// created reference: the bytes that the backend made, unchanged.
pub proof fn lemma_exchange_succeeds(space: i64, bytes: [u8; 12])
    ensures
        Stage::Copying.after(Answer::Space { id: space }).after(Answer::Done).after(
            Answer::Bytes { bytes },
        ).after(Answer::Done) == (Stage::Finished { reply: BackendReply::Created { bytes } }),
{
}

} // verus!
