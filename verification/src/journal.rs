//! What the experiment journal records, and what its rows say.
use vstd::prelude::*;

use crate::contracts::{ChangeRequest, RequestView, SnapshotView, StateSnapshot};
use crate::json::{Json, JsonView};

verus! {

/// The stage of an experiment that a record stands for.
#[derive(Clone, Copy, Debug, PartialEq, Eq, Structural)]
pub enum Stage {
    /// The baseline was captured.
    Snapshot,
    /// The change was described.
    Preview,
    /// The change is about to be applied.
    ApplyIntent,
    /// The change was applied.
    Apply,
    /// The change was probed.
    Verify,
    /// The baseline was put back.
    Rollback,
    /// The restored baseline was probed.
    RollbackVerify,
    /// The experiment closed with a success.
    Completed,
    /// The experiment closed with a failure.
    Failed,
}

impl Stage {
    /// The name a stage is journaled under.
    pub open spec fn text(&self) -> Seq<char> {
        match self {
            Stage::Snapshot => "snapshot"@,
            Stage::Preview => "preview"@,
            Stage::ApplyIntent => "apply-intent"@,
            Stage::Apply => "apply"@,
            Stage::Verify => "verify"@,
            Stage::Rollback => "rollback"@,
            Stage::RollbackVerify => "rollback-verify"@,
            Stage::Completed => "completed"@,
            Stage::Failed => "failed"@,
        }
    }

    /// Whether a record of this stage closes its experiment.
    pub open spec fn closes(&self) -> bool {
        self == Stage::Completed || self == Stage::Failed
    }

    /// The name a stage is journaled under.
    pub fn name(&self) -> (name: &'static str)
        ensures
            name@ == self.text(),
    {
        match self {
            Stage::Snapshot => "snapshot",
            Stage::Preview => "preview",
            Stage::ApplyIntent => "apply-intent",
            Stage::Apply => "apply",
            Stage::Verify => "verify",
            Stage::Rollback => "rollback",
            Stage::RollbackVerify => "rollback-verify",
            Stage::Completed => "completed",
            Stage::Failed => "failed",
        }
    }
}

/// Why a journal write did not happen.
#[derive(Clone, Debug)]
pub enum JournalFault {
    /// The journal could not be read or written.
    Storage(String),
    /// The record could not be encoded.
    Encoding(String),
}

/// One failure of an experiment: its kind, the stage it struck, and its text.
#[derive(Clone, Debug)]
pub struct FailureNote {
    /// Stable machine-readable kind of the error.
    pub kind: &'static str,
    /// Stage that failed.
    pub stage: Stage,
    /// Sentence that describes the error.
    pub error: String,
}

/// What a failure note says.
#[verifier::ext_equal]
pub struct NoteView {
    /// Kind of the error.
    pub kind: Seq<char>,
    /// Stage that failed.
    pub stage: Stage,
    /// Sentence that describes the error.
    pub error: Seq<char>,
}

impl View for FailureNote {
    type V = NoteView;

    open spec fn view(&self) -> NoteView {
        NoteView { kind: self.kind@, stage: self.stage, error: self.error@ }
    }
}

/// The payload of one journal record.
#[derive(Debug)]
pub enum Payload {
    /// A captured or restored provider state.
    Snapshot(StateSnapshot),
    /// The description of the change to come.
    Preview(String),
    /// The change request, in full.
    Request(ChangeRequest),
    /// The change was applied.
    Applied,
    /// Whether the requested state was observed.
    Verified(bool),
    /// Whether the captured state was observed again.
    Restored(bool),
    /// The experiment succeeded.
    Completed {
        /// Whether the requested state was observed.
        verified: bool,
        /// Whether the captured state was restored.
        rolled_back: bool,
    },
    /// The experiment failed.
    Failed {
        /// The failure that the caller is told of.
        failure: FailureNote,
        /// The earlier failure that it supersedes.
        suppressed: Option<FailureNote>,
    },
}

/// What a payload says.
#[verifier::ext_equal]
pub enum PayloadView {
    /// A captured or restored provider state.
    Snapshot(SnapshotView),
    /// The description of the change to come.
    Preview(Seq<char>),
    /// The change request, in full.
    Request(RequestView),
    /// The change was applied.
    Applied,
    /// Whether the requested state was observed.
    Verified(bool),
    /// Whether the captured state was observed again.
    Restored(bool),
    /// The experiment succeeded.
    Completed {
        /// Whether the requested state was observed.
        verified: bool,
        /// Whether the captured state was restored.
        rolled_back: bool,
    },
    /// The experiment failed.
    Failed {
        /// The failure that the caller is told of.
        failure: NoteView,
        /// The earlier failure that it supersedes.
        suppressed: Option<NoteView>,
    },
}

impl View for Payload {
    type V = PayloadView;

    open spec fn view(&self) -> PayloadView {
        match self {
            Payload::Snapshot(snapshot) => PayloadView::Snapshot(snapshot@),
            Payload::Preview(text) => PayloadView::Preview(text@),
            Payload::Request(request) => PayloadView::Request(request@),
            Payload::Applied => PayloadView::Applied,
            Payload::Verified(verified) => PayloadView::Verified(*verified),
            Payload::Restored(restored) => PayloadView::Restored(*restored),
            Payload::Completed { verified, rolled_back } => PayloadView::Completed {
                verified: *verified,
                rolled_back: *rolled_back,
            },
            Payload::Failed { failure, suppressed } => PayloadView::Failed {
                failure: failure@,
                suppressed: match suppressed {
                    Some(note) => Some(note@),
                    None => None,
                },
            },
        }
    }
}

/// A failure note as JSON.
pub open spec fn note_json(note: NoteView) -> JsonView {
    JsonView::Object(
        map![
            "error"@ => JsonView::Text(note.error),
            "kind"@ => JsonView::Text(note.kind),
            "stage"@ => JsonView::Text(note.stage.text())
        ],
    )
}

/// A payload as JSON.
pub open spec fn payload_json(payload: PayloadView) -> JsonView {
    match payload {
        PayloadView::Snapshot(snapshot) => crate::contracts::snapshot_json(snapshot),
        PayloadView::Preview(text) => JsonView::Object(map!["description"@ => JsonView::Text(text)]),
        PayloadView::Request(request) => crate::contracts::request_json(request),
        PayloadView::Applied => JsonView::Object(map!["applied"@ => JsonView::Bool(true)]),
        PayloadView::Verified(verified) => JsonView::Object(map!["verified"@ => JsonView::Bool(verified)]),
        PayloadView::Restored(restored) => JsonView::Object(map!["restored"@ => JsonView::Bool(restored)]),
        PayloadView::Completed { verified, rolled_back } => JsonView::Object(
            map!["rolled_back"@ => JsonView::Bool(rolled_back), "verified"@ => JsonView::Bool(verified)],
        ),
        PayloadView::Failed { failure, suppressed } => match suppressed {
            None => note_json(failure),
            Some(earlier) => crate::json::with_member(note_json(failure), "suppressed"@, note_json(earlier)),
        },
    }
}

/// The members of a payload, in the order in which they are written.
pub open spec fn payload_names(payload: PayloadView) -> Seq<Seq<char>> {
    match payload {
        PayloadView::Snapshot(_) => seq!["provider_id"@, "state"@],
        PayloadView::Preview(_) => seq!["description"@],
        PayloadView::Request(_) => seq!["capability_id"@, "parameters"@, "lease_seconds"@],
        PayloadView::Applied => seq!["applied"@],
        PayloadView::Verified(_) => seq!["verified"@],
        PayloadView::Restored(_) => seq!["restored"@],
        PayloadView::Completed { .. } => seq!["rolled_back"@, "verified"@],
        PayloadView::Failed { suppressed, .. } => match suppressed {
            None => seq!["error"@, "kind"@, "stage"@],
            Some(_) => seq!["error"@, "kind"@, "stage"@, "suppressed"@],
        },
    }
}

impl FailureNote {
    /// The note as JSON.
    fn to_json(&self) -> (json: Json)
        ensures
            json@ == note_json(self@),
            json.names() == seq!["error"@, "kind"@, "stage"@],
    {
        Json::object()
            .with("error", Json::Text(self.error.clone()))
            .with("kind", Json::text(self.kind))
            .with("stage", Json::text(self.stage.name()))
    }
}

impl Payload {
    /// The payload as JSON, which is what the journal holds as text.
    pub fn to_json(&self) -> (json: Json)
        ensures
            json@ == payload_json(self@),
            json.names() == payload_names(self@),
    {
        match self {
            Payload::Snapshot(snapshot) => snapshot.to_json(),
            Payload::Preview(text) => Json::object().with("description", Json::Text(text.clone())),
            Payload::Request(request) => request.to_json(),
            Payload::Applied => Json::object().with("applied", Json::Bool(true)),
            Payload::Verified(verified) => Json::object().with("verified", Json::Bool(*verified)),
            Payload::Restored(restored) => Json::object().with("restored", Json::Bool(*restored)),
            Payload::Completed { verified, rolled_back } => Json::object()
                .with("rolled_back", Json::Bool(*rolled_back))
                .with("verified", Json::Bool(*verified)),
            Payload::Failed { failure, suppressed } => match suppressed {
                None => failure.to_json(),
                Some(earlier) => failure.to_json().with("suppressed", earlier.to_json()),
            },
        }
    }
}

/// A record to write.
#[derive(Debug)]
pub struct JournalEntry {
    /// The experiment the record belongs to; `None` asks the journal to open a
    /// new experiment together with this record.
    pub experiment_id: Option<i64>,
    /// Provider that owns the change.
    pub provider_id: String,
    /// Stage the record stands for.
    pub stage: Stage,
    /// What the record holds.
    pub payload: Payload,
}

/// What a journal entry says.
#[verifier::ext_equal]
pub struct EntryView {
    /// The experiment the record belongs to.
    pub experiment_id: Option<i64>,
    /// Provider that owns the change.
    pub provider_id: Seq<char>,
    /// Stage the record stands for.
    pub stage: Stage,
    /// What the record holds.
    pub payload: PayloadView,
}

impl View for JournalEntry {
    type V = EntryView;

    open spec fn view(&self) -> EntryView {
        EntryView {
            experiment_id: self.experiment_id,
            provider_id: self.provider_id@,
            stage: self.stage,
            payload: self.payload@,
        }
    }
}

} // verus!
