//! What stands in the JSON that the journal and the wire carry.
use vstd::prelude::*;

use crate::contracts::{
    CapabilityView, ChangeRequest, ManifestView, Persistence, RequestError, RequestView, RiskClass, SnapshotView,
};
use crate::control_plane::LifecycleResult;
use crate::frame::{read_frame, write_frame, FrameError, Progress, StreamFault};
use crate::journal::{NoteView, PayloadView, Stage};
use crate::json::{Json, JsonView};

verus! {

/// The names of the members that the JSON forms have are all different.
proof fn lemma_names_differ()
    ensures
        "capability_id"@ != "parameters"@ && "capability_id"@ != "lease_seconds"@ && "parameters"@ != "lease_seconds"@,
        "provider_id"@ != "state"@ && "provider_id"@ != "preview"@ && "provider_id"@ != "verified"@,
        "provider_id"@ != "rolled_back"@ && "preview"@ != "verified"@ && "preview"@ != "rolled_back"@,
        "verified"@ != "rolled_back"@,
        "error"@ != "kind"@ && "error"@ != "stage"@ && "kind"@ != "stage"@,
        "suppressed"@ != "error"@ && "suppressed"@ != "kind"@ && "suppressed"@ != "stage"@,
        "id"@ != "description"@ && "id"@ != "risk"@ && "id"@ != "persistence"@ && "id"@ != "input_schema"@,
        "description"@ != "risk"@ && "description"@ != "persistence"@ && "description"@ != "input_schema"@,
        "risk"@ != "persistence"@ && "risk"@ != "input_schema"@ && "persistence"@ != "input_schema"@,
        "id"@ != "protocol_version"@ && "id"@ != "targets"@ && "id"@ != "capabilities"@,
        "protocol_version"@ != "targets"@ && "protocol_version"@ != "capabilities"@ && "targets"@ != "capabilities"@,
{
    reveal_strlit("capability_id");
    reveal_strlit("parameters");
    reveal_strlit("lease_seconds");
    reveal_strlit("provider_id");
    reveal_strlit("state");
    reveal_strlit("preview");
    reveal_strlit("verified");
    reveal_strlit("rolled_back");
    reveal_strlit("error");
    reveal_strlit("kind");
    reveal_strlit("stage");
    reveal_strlit("suppressed");
    reveal_strlit("id");
    reveal_strlit("description");
    reveal_strlit("risk");
    reveal_strlit("persistence");
    reveal_strlit("input_schema");
    reveal_strlit("protocol_version");
    reveal_strlit("targets");
    reveal_strlit("capabilities");
    assert("capability_id"@.len() == 13 && "parameters"@.len() == 10 && "lease_seconds"@.len() == 13);
    assert("capability_id"@[0] == 'c' && "lease_seconds"@[0] == 'l');
    assert("provider_id"@.len() == 11 && "state"@.len() == 5 && "preview"@.len() == 7 && "verified"@.len() == 8);
    assert("rolled_back"@.len() == 11 && "provider_id"@[0] == 'p' && "rolled_back"@[0] == 'r');
    assert("error"@.len() == 5 && "kind"@.len() == 4 && "stage"@.len() == 5 && "suppressed"@.len() == 10);
    assert("error"@[0] == 'e' && "stage"@[0] == 's');
    assert("id"@.len() == 2 && "description"@.len() == 11 && "risk"@.len() == 4 && "persistence"@.len() == 11);
    assert("input_schema"@.len() == 12 && "description"@[0] == 'd' && "persistence"@[0] == 'p');
    assert("protocol_version"@.len() == 16 && "targets"@.len() == 7 && "capabilities"@.len() == 12);
}

/// An object holds under a name what was put there last, keeps what it holds under
/// every other, and only an object holds anything.
pub proof fn a_member_is_what_was_put_there(json: JsonView, name: Seq<char>, value: JsonView, other: Seq<char>)
    ensures
        json is Object ==> crate::json::member(crate::json::with_member(json, name, value), name) == Some(value),
        other != name ==> crate::json::member(crate::json::with_member(json, name, value), other)
            == crate::json::member(json, other),
        !(json is Object) ==> crate::json::member(json, name) is None,
        crate::json::member(JsonView::Object(Map::empty()), name) is None,
        crate::json::unsigned_member(json, name) matches Some(n) ==> crate::json::member(json, name) == Some(
            JsonView::Unsigned(n),
        ),
        crate::json::member(json, name) matches Some(JsonView::Unsigned(n)) ==> crate::json::unsigned_member(json, name)
            == Some(n),
{
}

/// Of several members with one name the last decides, and a value reads the same
/// whatever the order of members with different names.
pub proof fn the_last_member_of_a_name_decides(members: Seq<(String, Json)>, a: (String, Json), b: (String, Json))
    ensures
        a.0@ == b.0@ ==> crate::json::members_view(members.push(a).push(b)) == crate::json::members_view(
            members.push(b),
        ),
        a.0@ != b.0@ ==> crate::json::members_view(members.push(a).push(b)) == crate::json::members_view(
            members.push(b).push(a),
        ),
        crate::json::members_view(members.push(a)).contains_key(a.0@),
        crate::json::members_view(members.push(a))[a.0@] == a.1@,
        crate::json::members_view(Seq::empty()) == Map::<Seq<char>, JsonView>::empty(),
{
    assert(members.push(a).push(b).drop_last() =~= members.push(a));
    assert(members.push(b).push(a).drop_last() =~= members.push(b));
    assert(members.push(a).drop_last() =~= members);
    assert(members.push(b).drop_last() =~= members);
    reveal_with_fuel(crate::json::members_view, 3);
    assert(a.0@ == b.0@ ==> crate::json::members_view(members.push(a).push(b)) =~= crate::json::members_view(
        members.push(b),
    ));
    assert(a.0@ != b.0@ ==> crate::json::members_view(members.push(a).push(b)) =~= crate::json::members_view(
        members.push(b).push(a),
    ));
}

/// A request is written with its capability, its parameters and its lease under
/// their names, so two requests that are written alike are the same request.
pub proof fn a_written_request_says_what_is_asked(request: RequestView, other: RequestView)
    ensures
        crate::json::member(crate::contracts::request_json(request), "capability_id"@) == Some(
            JsonView::Text(request.capability_id),
        ),
        crate::json::member(crate::contracts::request_json(request), "parameters"@) == Some(request.parameters),
        crate::json::member(crate::contracts::request_json(request), "lease_seconds"@) == Some(
            JsonView::Unsigned(request.lease_seconds),
        ),
        crate::contracts::request_json(request) == crate::contracts::request_json(other) ==> request == other,
{
    lemma_names_differ();
    let (a, b) = (crate::contracts::request_json(request), crate::contracts::request_json(other));
    assert(crate::json::member(b, "capability_id"@) == Some(JsonView::Text(other.capability_id)));
    assert(crate::json::member(b, "parameters"@) == Some(other.parameters));
    assert(crate::json::member(b, "lease_seconds"@) == Some(JsonView::Unsigned(other.lease_seconds)));
    if a == b {
        assert(crate::json::member(a, "capability_id"@) == crate::json::member(b, "capability_id"@));
    }
}

/// A snapshot is written with its provider and its state, so two snapshots that
/// are written alike are the same snapshot.
pub proof fn a_written_snapshot_says_what_was_captured(snapshot: SnapshotView, other: SnapshotView)
    ensures
        crate::json::member(crate::contracts::snapshot_json(snapshot), "provider_id"@) == Some(
            JsonView::Text(snapshot.provider_id),
        ),
        crate::json::member(crate::contracts::snapshot_json(snapshot), "state"@) == Some(snapshot.state),
        crate::contracts::snapshot_json(snapshot) == crate::contracts::snapshot_json(other) ==> snapshot == other,
{
    lemma_names_differ();
    let (a, b) = (crate::contracts::snapshot_json(snapshot), crate::contracts::snapshot_json(other));
    assert(crate::json::member(b, "provider_id"@) == Some(JsonView::Text(other.provider_id)));
    assert(crate::json::member(b, "state"@) == Some(other.state));
}

/// A change request is formed exactly from named parameters and a lease that is
/// not zero, and holds what it was formed from.
pub proof fn a_request_is_formed_from_what_is_given(
    capability_id: String,
    parameters: Json,
    lease_seconds: u64,
    formed: Result<ChangeRequest, RequestError>,
)
    requires
        call_ensures(ChangeRequest::new, (capability_id, parameters, lease_seconds), formed),
    ensures
        formed is Ok <==> parameters@ is Object && lease_seconds > 0,
        formed matches Ok(request) ==> request.capability_id == capability_id && request.parameters == parameters
            && request.lease_seconds == lease_seconds,
        !(parameters@ is Object) ==> formed == Err::<ChangeRequest, RequestError>(RequestError::ParametersNotObject),
        parameters@ is Object && lease_seconds == 0 ==> formed == Err::<ChangeRequest, RequestError>(
            RequestError::ZeroLease,
        ),
{
}

/// The outcome of a lifecycle is written field by field.
pub proof fn a_written_outcome_says_what_was_seen(result: LifecycleResult)
    ensures
        ({
            let written = crate::control_plane::result_json(result);
            &&& crate::json::member(written, "provider_id"@) == Some(JsonView::Text(result.provider_id@))
            &&& crate::json::member(written, "preview"@) == Some(JsonView::Text(result.preview@))
            &&& crate::json::member(written, "verified"@) == Some(JsonView::Bool(result.verified))
            &&& crate::json::member(written, "rolled_back"@) == Some(JsonView::Bool(result.rolled_back))
        }),
{
    lemma_names_differ();
}

/// A capability is written with everything that its descriptor says.
pub proof fn a_written_capability_says_what_it_is(capability: CapabilityView)
    ensures
        ({
            let written = crate::contracts::capability_json(capability);
            &&& crate::json::member(written, "id"@) == Some(JsonView::Text(capability.id))
            &&& crate::json::member(written, "description"@) == Some(JsonView::Text(capability.description))
            &&& crate::json::member(written, "input_schema"@) == Some(capability.input_schema)
            &&& crate::json::member(written, "risk"@) == Some(
                JsonView::Text(
                    match capability.risk {
                        RiskClass::ReadOnly => "read-only"@,
                        RiskClass::Reversible => "reversible"@,
                        RiskClass::ApprovalRequired => "approval-required"@,
                        RiskClass::Denied => "denied"@,
                    },
                ),
            )
            &&& crate::json::member(written, "persistence"@) == Some(
                JsonView::Text(
                    match capability.persistence {
                        Persistence::NoChange => "none"@,
                        Persistence::Leased => "leased"@,
                        Persistence::Persistent => "persistent"@,
                        Persistence::RebootRequired => "reboot-required"@,
                    },
                ),
            )
        }),
{
    lemma_names_differ();
}

/// A manifest is written with its identity and, in order, every target and every
/// capability that it lists.
pub proof fn a_written_manifest_lists_everything(manifest: ManifestView, at: int)
    ensures
        ({
            let written = crate::contracts::manifest_json(manifest);
            &&& crate::json::member(written, "id"@) == Some(JsonView::Text(manifest.id))
            &&& crate::json::member(written, "protocol_version"@) == Some(
                JsonView::Unsigned(manifest.protocol_version as u64),
            )
            &&& crate::json::member(written, "targets"@) matches Some(JsonView::Array(targets)) && targets.len()
                == manifest.targets.len() && (0 <= at < targets.len() ==> targets[at] == JsonView::Text(
                manifest.targets[at],
            ))
            &&& crate::json::member(written, "capabilities"@) matches Some(JsonView::Array(capabilities))
                && capabilities.len() == manifest.capabilities.len() && (0 <= at < capabilities.len()
                ==> capabilities[at] == crate::contracts::capability_json(manifest.capabilities[at]))
        }),
{
    lemma_names_differ();
}

/// A failure is written with its kind, its stage and its words.
pub proof fn a_written_failure_says_what_failed(note: NoteView)
    ensures
        crate::json::member(crate::journal::note_json(note), "kind"@) == Some(JsonView::Text(note.kind)),
        crate::json::member(crate::journal::note_json(note), "error"@) == Some(JsonView::Text(note.error)),
        crate::json::member(crate::journal::note_json(note), "stage"@) == Some(JsonView::Text(note.stage.text())),
{
    lemma_names_differ();
}

/// A payload is written with what it holds; a failure that superseded an earlier
/// one has the earlier one beside it, and any other has none.
pub proof fn a_written_payload_says_what_it_holds(payload: PayloadView)
    ensures
        ({
            let written = crate::journal::payload_json(payload);
            match payload {
                PayloadView::Snapshot(snapshot) => crate::json::member(written, "state"@) == Some(snapshot.state)
                    && crate::json::member(written, "provider_id"@) == Some(JsonView::Text(snapshot.provider_id)),
                PayloadView::Preview(text) => crate::json::member(written, "description"@) == Some(JsonView::Text(text)),
                PayloadView::Request(request) => crate::json::member(written, "lease_seconds"@) == Some(
                    JsonView::Unsigned(request.lease_seconds),
                ) && crate::json::member(written, "parameters"@) == Some(request.parameters) && crate::json::member(
                    written,
                    "capability_id"@,
                ) == Some(JsonView::Text(request.capability_id)),
                PayloadView::Applied => crate::json::member(written, "applied"@) == Some(JsonView::Bool(true)),
                PayloadView::Verified(seen) => crate::json::member(written, "verified"@) == Some(JsonView::Bool(seen)),
                PayloadView::Restored(seen) => crate::json::member(written, "restored"@) == Some(JsonView::Bool(seen)),
                PayloadView::Completed { verified, rolled_back } => crate::json::member(written, "verified"@) == Some(
                    JsonView::Bool(verified),
                ) && crate::json::member(written, "rolled_back"@) == Some(JsonView::Bool(rolled_back)),
                PayloadView::Failed { failure, suppressed } => {
                    &&& crate::json::member(written, "kind"@) == Some(JsonView::Text(failure.kind))
                    &&& crate::json::member(written, "error"@) == Some(JsonView::Text(failure.error))
                    &&& crate::json::member(written, "stage"@) == Some(JsonView::Text(failure.stage.text()))
                    &&& suppressed is None <==> crate::json::member(written, "suppressed"@) is None
                    &&& suppressed matches Some(earlier) ==> crate::json::member(written, "suppressed"@) == Some(
                        crate::journal::note_json(earlier),
                    )
                },
            }
        }),
{
    lemma_names_differ();
}

/// Every stage is journaled under a name of its own, and only the two closing
/// stages close.
pub proof fn a_stage_has_a_name_of_its_own(a: Stage, b: Stage)
    ensures
        a.text() == b.text() <==> a == b,
        a == Stage::Snapshot ==> a.text() == "snapshot"@,
        a == Stage::ApplyIntent ==> a.text() == "apply-intent"@,
        a == Stage::Completed ==> a.text() == "completed"@,
        a == Stage::Failed ==> a.text() == "failed"@,
        a.closes() <==> a.text() == "completed"@ || a.text() == "failed"@,
{
    reveal_strlit("snapshot");
    reveal_strlit("preview");
    reveal_strlit("apply-intent");
    reveal_strlit("apply");
    reveal_strlit("verify");
    reveal_strlit("rollback");
    reveal_strlit("rollback-verify");
    reveal_strlit("completed");
    reveal_strlit("failed");
    assert("snapshot"@.len() == 8 && "preview"@.len() == 7 && "apply-intent"@.len() == 12 && "apply"@.len() == 5);
    assert("verify"@.len() == 6 && "rollback"@.len() == 8 && "rollback-verify"@.len() == 15);
    assert("completed"@.len() == 9 && "failed"@.len() == 6);
    assert("snapshot"@[0] == 's' && "rollback"@[0] == 'r' && "verify"@[0] == 'v' && "failed"@[0] == 'f');
}

/// A frame's first four bytes are its length, the most significant first; a frame
/// without a body and one of more than 1048576 bytes are refused as soon as those
/// four are in, and any other is complete exactly once its body is.
pub proof fn a_frame_declares_its_length_in_four_bytes(bytes: Seq<u8>)
    ensures
        bytes.len() < 4 ==> crate::frame::progress(bytes) == Progress::Wants((4 - bytes.len()) as nat),
        bytes.len() >= 4 ==> {
            let length = bytes[0] * 16_777_216 + bytes[1] * 65_536 + bytes[2] * 256 + bytes[3];
            &&& length == 0 <==> crate::frame::progress(bytes) is Empty
            &&& length > 1_048_576 <==> crate::frame::progress(bytes) is TooLarge
            &&& length > 1_048_576 ==> crate::frame::progress(bytes) == Progress::TooLarge(length as nat)
            &&& 0 < length <= 1_048_576 && bytes.len() < 4 + length ==> crate::frame::progress(bytes)
                == Progress::Wants((4 + length - bytes.len()) as nat)
            &&& 0 < length <= 1_048_576 && bytes.len() >= 4 + length ==> crate::frame::progress(bytes)
                == Progress::Complete(bytes.subrange(4, 4 + length))
        },
{
}

/// A body is written in a frame exactly where it has at most 1048576 bytes: four
/// bytes of length, the most significant first, and then the body itself.
pub proof fn a_written_frame_holds_its_body(body: Vec<u8>, written: Result<Vec<u8>, FrameError>)
    requires
        call_ensures(write_frame, (&body,), written),
        body@.len() <= u64::MAX,
    ensures
        written is Ok <==> body@.len() <= 1_048_576,
        written matches Ok(bytes) ==> {
            &&& bytes@.len() == body@.len() + 4
            &&& bytes@.skip(4) == body@
            &&& bytes@[0] * 16_777_216 + bytes@[1] * 65_536 + bytes@[2] * 256 + bytes@[3] == body@.len()
        },
        written matches Err(error) ==> (error matches FrameError::TooLarge { length } && length == body@.len()),
{
    if body@.len() <= 1_048_576 {
        crate::frame::a_prefix_declares_its_length(body@.len(), body@);
        assert(crate::frame::framed(body@).skip(4) =~= body@);
    }
}

/// A stream that ends before its frame is complete is a fault, unless it ends at
/// the frame boundary; a complete frame is read as its body, whatever follows.
pub proof fn a_stream_that_ends_early_is_a_fault(stream: Vec<u8>, read: Result<Option<Vec<u8>>, FrameError>)
    requires
        call_ensures(read_frame, (&stream,), read),
    ensures
        read matches Ok(None) <==> stream@.len() == 0,
        0 < stream@.len() < 4 ==> read == Err::<Option<Vec<u8>>, FrameError>(
            FrameError::Io(StreamFault::TruncatedPrefix),
        ),
        stream@.len() >= 4 ==> {
            let length = stream@[0] * 16_777_216 + stream@[1] * 65_536 + stream@[2] * 256 + stream@[3];
            &&& length == 0 ==> read == Err::<Option<Vec<u8>>, FrameError>(FrameError::Io(StreamFault::Empty))
            &&& length > 1_048_576 ==> read == Err::<Option<Vec<u8>>, FrameError>(
                FrameError::TooLarge { length: length as u64 },
            )
            &&& 0 < length <= 1_048_576 && stream@.len() < 4 + length ==> read == Err::<Option<Vec<u8>>, FrameError>(
                FrameError::Io(StreamFault::TruncatedBody),
            )
            &&& 0 < length <= 1_048_576 && stream@.len() >= 4 + length ==> (read matches Ok(Some(body)) && body@
                == stream@.subrange(4, 4 + length))
        },
{
    a_frame_declares_its_length_in_four_bytes(stream@);
}

/// A frame error says what is wrong with the frame, and an over-long one by how
/// many bytes and what is the most.
pub proof fn a_frame_error_says_what_is_wrong(error: FrameError)
    ensures
        error == FrameError::Io(StreamFault::TruncatedPrefix) ==> error.sentence() == "truncated frame length prefix"@,
        error == FrameError::Io(StreamFault::TruncatedBody) ==> error.sentence() == "early eof"@,
        error == FrameError::Io(StreamFault::Empty) ==> error.sentence() == "empty frame"@,
        error matches FrameError::Io(StreamFault::Transport(why)) ==> error.sentence() == why@,
        error matches FrameError::TooLarge { length } ==> error.sentence() == "frame length "@
            + crate::text::decimal_digits(length as nat) + " exceeds the "@ + crate::text::decimal_digits(1_048_576)
            + " byte maximum"@,
{
}

} // verus!
