//! In-memory provider that owns one reversible integer setting.
use vstd::prelude::*;

use crate::contracts::{
    CapabilityDescriptor, CapabilityView, ChangeRequest, ManifestView, Persistence,
    ProviderManifest, RequestView, RiskClass, SnapshotView, StateSnapshot,
};
use crate::json::{Json, JsonView};
use crate::provider::{Provider, ProviderError};
use crate::text::{decimal, same_text};

verus! {

/// The one capability the mock provider advertises.
pub const MOCK_CAPABILITY_ID: &'static str = "mock.value";

/// Inclusive ceiling on the value that the one capability may be set to.
pub const MAX_MOCK_VALUE: u64 = 100;

/// The value that a request asks for, if it asks for one.
pub open spec fn requested_value(request: RequestView) -> Option<u64> {
    crate::json::unsigned_member(request.parameters, "value"@)
}

/// The state of a provider whose setting has that value.
pub open spec fn value_state(value: u64) -> JsonView {
    JsonView::Object(map!["value"@ => JsonView::Unsigned(value)])
}

/// The snapshot of a provider whose setting has that value.
pub open spec fn mock_snapshot(value: u64) -> SnapshotView {
    SnapshotView { provider_id: "mock"@, state: value_state(value) }
}

/// The schema of the value parameter.
pub open spec fn value_schema() -> JsonView {
    JsonView::Object(
        map![
            "maximum"@ => JsonView::Unsigned(MAX_MOCK_VALUE),
            "minimum"@ => JsonView::Unsigned(0),
            "type"@ => JsonView::Text("integer"@)
        ],
    )
}

/// The schema of the capability's parameters: an object that requires a value.
pub open spec fn mock_schema() -> JsonView {
    JsonView::Object(
        map![
            "properties"@ => JsonView::Object(map!["value"@ => value_schema()]),
            "required"@ => JsonView::Array(seq![JsonView::Text("value"@)]),
            "type"@ => JsonView::Text("object"@)
        ],
    )
}

/// The manifest of a mock provider built for that target.
pub open spec fn mock_manifest(target: Seq<char>) -> ManifestView {
    ManifestView {
        id: "mock"@,
        protocol_version: 1,
        targets: seq![target],
        capabilities: seq![
            CapabilityView {
                id: MOCK_CAPABILITY_ID@,
                description: "Sets an in-memory value for contract testing"@,
                risk: RiskClass::Reversible,
                persistence: Persistence::Leased,
                input_schema: mock_schema(),
            },
        ],
    }
}

/// A deterministic provider that owns one reversible integer setting.
#[derive(Debug)]
pub struct MockProvider {
    value: u64,
    target: String,
}

/// The schema of the value parameter.
pub fn value_schema_json() -> (schema: Json)
    ensures
        schema@ == value_schema(),
{
    Json::object()
        .with("maximum", Json::Unsigned(MAX_MOCK_VALUE))
        .with("minimum", Json::Unsigned(0))
        .with("type", Json::text("integer"))
}

/// The schema of the capability's parameters.
fn mock_schema_json() -> (schema: Json)
    ensures
        schema@ == mock_schema(),
{
    let name = Json::text("value");
    let mut required: Vec<Json> = Vec::new();
    required.push(name);
    let properties = Json::object().with("value", value_schema_json());
    assert(crate::json::items_view(required@) =~= seq![JsonView::Text("value"@)]);
    Json::object()
        .with("properties", properties)
        .with("required", Json::Array(required))
        .with("type", Json::text("object"))
}

impl MockProvider {
    /// The current value of the setting.
    pub closed spec fn setting(&self) -> u64 {
        self.value
    }

    /// The target that the provider was built for.
    pub closed spec fn built_for(&self) -> Seq<char> {
        self.target@
    }

    /// Creates a provider with a known baseline value, built for `target`.
    pub fn new(value: u64, target: &str) -> (provider: Self)
        ensures
            provider.setting() == value,
            provider.built_for() == target@,
    {
        MockProvider { value, target: target.to_owned() }
    }

    /// Returns the current value for assertions in integration seams.
    pub fn value(&self) -> (value: u64)
        ensures
            value == self.setting(),
    {
        self.value
    }
}

impl Provider for MockProvider {
    open spec fn may_describe(&self, manifest: ProviderManifest) -> bool {
        manifest@ == mock_manifest(self.built_for())
    }

    open spec fn may_snapshot(&self, outcome: Result<StateSnapshot, ProviderError>) -> bool {
        outcome matches Ok(snapshot) && snapshot@ == mock_snapshot(self.setting())
    }

    open spec fn may_preview(&self, request: ChangeRequest, outcome: Result<String, ProviderError>) -> bool {
        match (requested_value(request@), outcome) {
            (Some(value), Ok(text)) => text@ == "set mock.value from "@ + crate::text::decimal_digits(
                self.setting() as nat,
            ) + " to "@ + crate::text::decimal_digits(value as nat),
            (None, Err(ProviderError::InvalidRequest(why))) => why@ == "value must be a u64"@,
            _ => false,
        }
    }

    open spec fn may_apply(&self, request: ChangeRequest, after: Self, outcome: Result<(), ProviderError>) -> bool {
        &&& after.built_for() == self.built_for()
        &&& if request.capability_id@ != MOCK_CAPABILITY_ID@ {
            &&& after.setting() == self.setting()
            &&& outcome matches Err(ProviderError::UnsupportedCapability(what))
            &&& what@ == request.capability_id@
        } else {
            match requested_value(request@) {
                Some(value) => after.setting() == value && outcome is Ok,
                None => {
                    &&& after.setting() == self.setting()
                    &&& outcome matches Err(ProviderError::InvalidRequest(why))
                    &&& why@ == "value must be a u64"@
                },
            }
        }
    }

    open spec fn may_verify(&self, request: ChangeRequest, outcome: Result<bool, ProviderError>) -> bool {
        outcome == Ok::<bool, ProviderError>(requested_value(request@) == Some(self.setting()))
    }

    open spec fn may_rollback(&self, snapshot: StateSnapshot, after: Self, outcome: Result<(), ProviderError>) -> bool {
        &&& after.built_for() == self.built_for()
        &&& match crate::json::unsigned_member(snapshot.state@, "value"@) {
            Some(value) => after.setting() == value && outcome is Ok,
            None => {
                &&& after.setting() == self.setting()
                &&& outcome matches Err(ProviderError::RollbackFailed(why))
                &&& why@ == "snapshot has no value"@
            },
        }
    }

    fn manifest(&self) -> (manifest: ProviderManifest) {
        let capability = CapabilityDescriptor {
            id: MOCK_CAPABILITY_ID.to_owned(),
            description: "Sets an in-memory value for contract testing".to_owned(),
            risk: RiskClass::Reversible,
            persistence: Persistence::Leased,
            input_schema: mock_schema_json(),
        };
        let mut targets: Vec<String> = Vec::new();
        targets.push(self.target.clone());
        let mut capabilities: Vec<CapabilityDescriptor> = Vec::new();
        capabilities.push(capability);
        let manifest = ProviderManifest {
            id: "mock".to_owned(),
            protocol_version: 1,
            targets,
            capabilities,
        };
        assert(manifest@.targets =~= mock_manifest(self.built_for()).targets);
        assert(manifest@.capabilities =~= mock_manifest(self.built_for()).capabilities);
        manifest
    }

    fn snapshot(&self) -> (outcome: Result<StateSnapshot, ProviderError>) {
        let state = Json::object().with("value", Json::Unsigned(self.value));
        assert(state@ =~= value_state(self.value));
        Ok(StateSnapshot { provider_id: "mock".to_owned(), state })
    }

    fn preview(&self, request: &ChangeRequest) -> (outcome: Result<String, ProviderError>) {
        match request.parameters.u64_member("value") {
            Some(value) => {
                let text = "set mock.value from ".to_owned()
                    .concat(decimal(self.value).as_str())
                    .concat(" to ")
                    .concat(decimal(value).as_str());
                Ok(text)
            },
            None => Err(ProviderError::InvalidRequest("value must be a u64".to_owned())),
        }
    }

    fn apply(&mut self, request: &ChangeRequest) -> (outcome: Result<(), ProviderError>) {
        if !same_text(request.capability_id.as_str(), MOCK_CAPABILITY_ID) {
            return Err(ProviderError::UnsupportedCapability(request.capability_id.clone()));
        }
        match request.parameters.u64_member("value") {
            Some(value) => {
                self.value = value;
                Ok(())
            },
            None => Err(ProviderError::InvalidRequest("value must be a u64".to_owned())),
        }
    }

    fn verify(&self, request: &ChangeRequest) -> (outcome: Result<bool, ProviderError>) {
        match request.parameters.u64_member("value") {
            Some(value) => Ok(value == self.value),
            None => Ok(false),
        }
    }

    fn rollback(&mut self, snapshot: &StateSnapshot) -> (outcome: Result<(), ProviderError>) {
        match snapshot.state.u64_member("value") {
            Some(value) => {
                self.value = value;
                Ok(())
            },
            None => Err(ProviderError::RollbackFailed("snapshot has no value".to_owned())),
        }
    }
}

} // verus!
