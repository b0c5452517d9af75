//! A minimal MCP server over the control plane: one JSON-RPC message per line.
use vstd::prelude::*;

use crate::contracts::{ChangeRequest, ManifestView, RequestView, MAX_LEASE_SECONDS};
use crate::control_plane::{ControlPlane, ControlPlaneError, Pending, Step};
use crate::journal::{JournalEntry, JournalFault};
use crate::json::{read_json, refuse_lease, Json, JsonView};
use crate::mock::{value_schema_json, MOCK_CAPABILITY_ID};
use crate::provider::Provider;
use crate::text::same_text;
use crate::watchdog::DEFAULT_JOURNAL;

verus! {

/// The protocol revision that the gateway speaks.
pub const PROTOCOL_VERSION: &'static str = "2025-03-26";

/// The gateway's own version.
pub const SERVER_VERSION: &'static str = "0.1.0";

/// A message that is not JSON.
pub const PARSE_ERROR: i64 = -32700;

/// A method that the gateway does not have.
pub const METHOD_NOT_FOUND: i64 = -32601;

/// A call whose parameters are not usable.
pub const INVALID_PARAMS: i64 = -32602;

/// What a response carries.
#[derive(Debug)]
pub enum RpcBody {
    /// A result.
    Outcome(Json),
    /// The result of a tool call: this value, to be carried as JSON text.
    Report(Json),
    /// An error.
    Fault {
        /// Its code.
        code: i64,
        /// Its sentence.
        message: String,
    },
}

/// What a message comes to.
#[derive(Debug)]
pub enum GatewayStep {
    /// Nothing is answered.
    Silent,
    /// This is answered.
    Answer {
        /// The id of the request.
        id: Json,
        /// What the response carries.
        body: RpcBody,
    },
    /// Write this record and report the outcome.
    Write {
        /// The record to write.
        entry: JournalEntry,
        /// The lifecycle to resume with the outcome.
        pending: Pending,
        /// The id of the request.
        id: Json,
    },
}

/// The step answers the request of that id with an error.
pub open spec fn faults(step: GatewayStep, id: JsonView, code: i64, message: Seq<char>) -> bool {
    &&& step matches GatewayStep::Answer { id: answered, body: RpcBody::Fault { code: given, message: words } }
    &&& answered@ == id
    &&& given == code
    &&& words@ == message
}

/// The step answers the request of that id with a result.
pub open spec fn answers(step: GatewayStep, id: JsonView, outcome: JsonView) -> bool {
    &&& step matches GatewayStep::Answer { id: answered, body: RpcBody::Outcome(given) }
    &&& answered@ == id
    &&& given@ == outcome
}

/// The step answers the request of that id with a tool result that carries the
/// value as text.
pub open spec fn reports(step: GatewayStep, id: JsonView, report: JsonView) -> bool {
    &&& step matches GatewayStep::Answer { id: answered, body: RpcBody::Report(given) }
    &&& answered@ == id
    &&& given@ == report
}

/// The result of a tool call that was refused, in those words.
pub open spec fn refused_tool(words: Seq<char>) -> JsonView {
    JsonView::Object(
        map![
            "content"@ => JsonView::Array(seq![JsonView::Object(map![
                "type"@ => JsonView::Text("text"@),
                "text"@ => JsonView::Text(words)
            ])]),
            "isError"@ => JsonView::Bool(true)
        ],
    )
}

/// The answer to `initialize`.
pub open spec fn greeting() -> JsonView {
    JsonView::Object(
        map![
            "protocolVersion"@ => JsonView::Text(PROTOCOL_VERSION@),
            "serverInfo"@ => JsonView::Object(map![
                "name"@ => JsonView::Text("fpsmaxxing-gateway"@),
                "version"@ => JsonView::Text(SERVER_VERSION@)
            ]),
            "capabilities"@ => JsonView::Object(map!["tools"@ => JsonView::Object(Map::empty())])
        ],
    )
}

/// The input schema of the lifecycle tool.
pub open spec fn lifecycle_schema() -> JsonView {
    JsonView::Object(
        map![
            "type"@ => JsonView::Text("object"@),
            "additionalProperties"@ => JsonView::Bool(false),
            "required"@ => JsonView::Array(
                seq![JsonView::Text("value"@), JsonView::Text("lease_seconds"@)],
            ),
            "properties"@ => JsonView::Object(map![
                "value"@ => crate::mock::value_schema(),
                "lease_seconds"@ => JsonView::Object(map![
                    "type"@ => JsonView::Text("integer"@),
                    "minimum"@ => JsonView::Unsigned(1),
                    "maximum"@ => JsonView::Unsigned(MAX_LEASE_SECONDS)
                ])
            ])
        ],
    )
}

/// The description of one tool.
pub open spec fn tool(name: Seq<char>, description: Seq<char>, schema: JsonView) -> JsonView {
    JsonView::Object(
        map![
            "name"@ => JsonView::Text(name),
            "description"@ => JsonView::Text(description),
            "inputSchema"@ => schema
        ],
    )
}

/// The answer to `tools/list`.
pub open spec fn tools() -> JsonView {
    JsonView::Object(
        map![
            "tools"@ => JsonView::Array(seq![
                tool(
                    "fpsmaxxing.capabilities"@,
                    "Discover typed, policy-approved capabilities"@,
                    JsonView::Object(map![
                        "type"@ => JsonView::Text("object"@),
                        "additionalProperties"@ => JsonView::Bool(false)
                    ]),
                ),
                tool(
                    "fpsmaxxing.run_mock_lifecycle"@,
                    "Run snapshot, preview, apply, verify, and rollback for mock.value"@,
                    lifecycle_schema(),
                ),
            ])
        ],
    )
}

/// Builds the answer to `initialize`.
fn greet() -> (json: Json)
    ensures
        json@ == greeting(),
{
    let info = Json::object().with("name", Json::text("fpsmaxxing-gateway")).with(
        "version",
        Json::text(SERVER_VERSION),
    );
    let capabilities = Json::object().with("tools", Json::object());
    Json::object().with("protocolVersion", Json::text(PROTOCOL_VERSION)).with("serverInfo", info).with(
        "capabilities",
        capabilities,
    )
}

/// Builds the input schema of the lifecycle tool.
fn lifecycle_schema_json() -> (json: Json)
    ensures
        json@ == lifecycle_schema(),
{
    let mut required: Vec<Json> = Vec::new();
    required.push(Json::text("value"));
    required.push(Json::text("lease_seconds"));
    assert(crate::json::items_view(required@) =~= seq![JsonView::Text("value"@), JsonView::Text("lease_seconds"@)]);
    let lease = Json::object()
        .with("type", Json::text("integer"))
        .with("minimum", Json::Unsigned(1))
        .with("maximum", Json::Unsigned(MAX_LEASE_SECONDS));
    let properties = Json::object().with("value", value_schema_json()).with("lease_seconds", lease);
    Json::object()
        .with("type", Json::text("object"))
        .with("additionalProperties", Json::Bool(false))
        .with("required", Json::Array(required))
        .with("properties", properties)
}

/// Builds the description of one tool.
fn tool_json(name: &str, description: &str, schema: Json) -> (json: Json)
    ensures
        json@ == tool(name@, description@, schema@),
{
    Json::object()
        .with("name", Json::text(name))
        .with("description", Json::text(description))
        .with("inputSchema", schema)
}

/// Builds the answer to `tools/list`.
fn list_tools() -> (json: Json)
    ensures
        json@ == tools(),
{
    let plain = Json::object().with("type", Json::text("object")).with("additionalProperties", Json::Bool(false));
    let capabilities = tool_json(
        "fpsmaxxing.capabilities",
        "Discover typed, policy-approved capabilities",
        plain,
    );
    let lifecycle = tool_json(
        "fpsmaxxing.run_mock_lifecycle",
        "Run snapshot, preview, apply, verify, and rollback for mock.value",
        lifecycle_schema_json(),
    );
    let mut listed: Vec<Json> = Vec::new();
    listed.push(capabilities);
    listed.push(lifecycle);
    assert(crate::json::items_view(listed@) =~= tools()->Object_0["tools"@]->Array_0);
    Json::object().with("tools", Json::Array(listed))
}

/// Builds the result of a tool call that was refused.
fn refused_tool_json(words: String) -> (json: Json)
    ensures
        json@ == refused_tool(words@),
{
    let part = text_part(words);
    let ghost said = part@;
    let mut parts: Vec<Json> = Vec::new();
    parts.push(part);
    assert(crate::json::items_view(parts@) =~= seq![said]);
    Json::object().with("content", Json::Array(parts)).with("isError", Json::Bool(true))
}

/// The string member of that name, if the value has one.
pub open spec fn text_member(json: JsonView, name: Seq<char>) -> Option<Seq<char>> {
    match crate::json::member(json, name) {
        Some(JsonView::Text(text)) => Some(text),
        _ => None,
    }
}

/// The member of that name, or null.
pub open spec fn member_or_null(json: JsonView, name: Seq<char>) -> JsonView {
    match crate::json::member(json, name) {
        Some(found) => found,
        None => JsonView::Null,
    }
}

/// The change that the arguments of the lifecycle tool ask for; its lease must
/// be a positive integer.
pub open spec fn lifecycle_request(arguments: JsonView) -> Option<RequestView> {
    match crate::json::unsigned_member(arguments, "lease_seconds"@) {
        Some(lease_seconds) => if lease_seconds > 0 {
            Some(
                RequestView {
                    capability_id: MOCK_CAPABILITY_ID@,
                    parameters: JsonView::Object(map!["value"@ => member_or_null(arguments, "value"@)]),
                    lease_seconds,
                },
            )
        } else {
            None
        },
        None => None,
    }
}

/// The step that carries on a step of the lifecycle. A policy denial is the
/// result of the tool call, not an error of the protocol.
pub open spec fn carries(step: GatewayStep, lifecycle: Step, id: JsonView) -> bool {
    match lifecycle {
        Step::Write { entry, pending } => {
            &&& step matches GatewayStep::Write { entry: written, pending: kept, id: answered }
            &&& written == entry
            &&& kept == pending
            &&& answered@ == id
        },
        Step::Done(Ok(result)) => reports(step, id, crate::control_plane::result_json(result)),
        Step::Done(Err(error)) => if error is PolicyDenied {
            answers(step, id, refused_tool(error.sentence()))
        } else {
            faults(step, id, INVALID_PARAMS, error.sentence())
        },
    }
}

/// The step refuses the lease of a lifecycle in the decoder's own words. Only a
/// zero that is written as a decimal may be a negative zero.
pub open spec fn refuses_lease(step: GatewayStep, id: JsonView, lease: JsonView, negative_zero: bool) -> bool {
    &&& negative_zero ==> lease == JsonView::Decimal("0.0"@)
    &&& faults(
        step,
        id,
        INVALID_PARAMS,
        "invalid lifecycle arguments: "@ + crate::json::lease_refusal(lease, negative_zero),
    )
}

/// How a tool call is handled.
pub open spec fn calls<P: Provider>(
    accepted: ManifestView,
    provider: P,
    id: JsonView,
    params: JsonView,
    step: GatewayStep,
) -> bool {
    match text_member(params, "name"@) {
        None => faults(step, id, INVALID_PARAMS, "missing tool name"@),
        Some(name) => if name == "fpsmaxxing.capabilities"@ {
            reports(step, id, crate::contracts::manifest_json(accepted))
        } else if name == "fpsmaxxing.run_mock_lifecycle"@ {
            match crate::json::member(params, "arguments"@) {
                None => faults(step, id, INVALID_PARAMS, "missing tool arguments"@),
                Some(arguments) => match lifecycle_request(arguments) {
                    None => exists|negative_zero: bool| #[trigger]
                        refuses_lease(step, id, member_or_null(arguments, "lease_seconds"@), negative_zero),
                    Some(request) => exists|lifecycle: Step| #[trigger]
                        crate::control_plane::starts(accepted, provider, request, lifecycle) && carries(
                            step,
                            lifecycle,
                            id,
                        ),
                },
            }
        } else {
            faults(step, id, INVALID_PARAMS, "unknown tool: "@ + name)
        },
    }
}

/// How a message is handled: a request without an id is a notification, and is
/// not answered.
pub open spec fn dispatches<P: Provider>(
    accepted: ManifestView,
    provider: P,
    request: JsonView,
    step: GatewayStep,
) -> bool {
    let id = member_or_null(request, "id"@);
    if request is Object && crate::json::member(request, "id"@) is None {
        step == GatewayStep::Silent
    } else {
        match text_member(request, "method"@) {
            None => faults(step, id, INVALID_PARAMS, "missing MCP method"@),
            Some(method) => if method == "initialize"@ {
                answers(step, id, greeting())
            } else if method == "tools/list"@ {
                answers(step, id, tools())
            } else if method == "tools/call"@ {
                calls(accepted, provider, id, member_or_null(request, "params"@), step)
            } else {
                faults(step, id, METHOD_NOT_FOUND, "unsupported MCP method: "@ + method)
            },
        }
    }
}

/// Answers with an error.
fn fault(id: Json, code: i64, message: String) -> (step: GatewayStep)
    ensures
        faults(step, id@, code, message@),
{
    GatewayStep::Answer { id, body: RpcBody::Fault { code, message } }
}

/// Answers with a result.
fn answer(id: Json, outcome: Json) -> (step: GatewayStep)
    ensures
        answers(step, id@, outcome@),
{
    GatewayStep::Answer { id, body: RpcBody::Outcome(outcome) }
}

/// Carries on a step of the lifecycle.
fn carry(lifecycle: Step, id: Json) -> (step: GatewayStep)
    ensures
        carries(step, lifecycle, id@),
{
    match lifecycle {
        Step::Write { entry, pending } => GatewayStep::Write { entry, pending, id },
        Step::Done(Ok(result)) => GatewayStep::Answer { id, body: RpcBody::Report(result.to_json()) },
        Step::Done(Err(error)) => {
            let denied = match &error {
                ControlPlaneError::PolicyDenied(_) => true,
                _ => false,
            };
            let words = error.message();
            if denied {
                answer(id, refused_tool_json(words))
            } else {
                fault(id, INVALID_PARAMS, words)
            }
        },
    }
}

/// The member of that name, or null.
fn take_member(json: &Json, name: &str) -> (found: Json)
    ensures
        found@ == member_or_null(json@, name@),
{
    match json.get(name) {
        Some(found) => found.clone(),
        None => Json::Null,
    }
}

/// Forms the change that the arguments of the lifecycle tool ask for.
fn form_request(arguments: &Json) -> (request: Option<ChangeRequest>)
    ensures
        match (request, lifecycle_request(arguments@)) {
            (Some(formed), Some(expected)) => formed@ == expected && formed.well_formed(),
            (None, None) => true,
            _ => false,
        },
{
    let lease_seconds: u64 = match arguments.u64_member("lease_seconds") {
        Some(seconds) => seconds,
        None => {
            return None;
        },
    };
    let parameters = Json::object().with("value", take_member(arguments, "value"));
    match ChangeRequest::new(MOCK_CAPABILITY_ID.to_owned(), parameters, lease_seconds) {
        Ok(request) => Some(request),
        Err(_) => None,
    }
}

/// Handles a tool call.
fn call_tool<P: Provider>(plane: &ControlPlane<P>, id: Json, params: &Json) -> (step: GatewayStep)
    ensures
        calls(plane.accepted(), plane.state(), id@, params@, step),
{
    let name = match params.get("name") {
        Some(Json::Text(name)) => name.as_str(),
        _ => {
            return fault(id, INVALID_PARAMS, "missing tool name".to_owned());
        },
    };
    if same_text(name, "fpsmaxxing.capabilities") {
        return GatewayStep::Answer { id, body: RpcBody::Report(plane.capabilities().to_json()) };
    }
    if !same_text(name, "fpsmaxxing.run_mock_lifecycle") {
        return fault(id, INVALID_PARAMS, "unknown tool: ".to_owned().concat(name));
    }
    let arguments = match params.get("arguments") {
        Some(arguments) => arguments,
        None => {
            return fault(id, INVALID_PARAMS, "missing tool arguments".to_owned());
        },
    };
    match form_request(arguments) {
        None => {
            let ghost asked = id@;
            let lease = take_member(arguments, "lease_seconds");
            let step = fault(
                id,
                INVALID_PARAMS,
                "invalid lifecycle arguments: ".to_owned().concat(refuse_lease(&lease).as_str()),
            );
            assert(refuses_lease(step, asked, lease@, crate::json::negative_zero(lease)));
            step
        },
        Some(request) => {
            let lifecycle = plane.run_lifecycle(&request);
            carry(lifecycle, id)
        },
    }
}

/// Handles a message.
pub fn dispatch<P: Provider>(plane: &ControlPlane<P>, request: &Json) -> (step: GatewayStep)
    ensures
        dispatches(plane.accepted(), plane.state(), request@, step),
{
    if request.is_object() && request.get("id").is_none() {
        return GatewayStep::Silent;
    }
    let id = take_member(request, "id");
    let method = match request.get("method") {
        Some(Json::Text(method)) => method.as_str(),
        _ => {
            return fault(id, INVALID_PARAMS, "missing MCP method".to_owned());
        },
    };
    if same_text(method, "initialize") {
        answer(id, greet())
    } else if same_text(method, "tools/list") {
        answer(id, list_tools())
    } else if same_text(method, "tools/call") {
        let params = take_member(request, "params");
        call_tool(plane, id, &params)
    } else {
        fault(id, METHOD_NOT_FOUND, "unsupported MCP method: ".to_owned().concat(method))
    }
}

/// Handles one line of input. A line that is not JSON is answered, and serving
/// goes on.
pub fn serve_line<P: Provider>(plane: &ControlPlane<P>, line: &str) -> (step: GatewayStep)
    ensures
        match crate::json::json_read(line@) {
            Ok(request) => dispatches(plane.accepted(), plane.state(), request, step),
            Err(words) => faults(step, JsonView::Null, PARSE_ERROR, words),
        },
{
    match read_json(line) {
        Ok(request) => dispatch(plane, &request),
        Err(why) => fault(Json::Null, PARSE_ERROR, why),
    }
}

/// Goes on with the lifecycle of a tool call once the journal has answered.
pub fn resume_call<P: Provider>(
    plane: &mut ControlPlane<P>,
    waiting: Pending,
    id: Json,
    reply: Result<i64, JournalFault>,
) -> (step: GatewayStep)
    ensures
        final(plane).accepted() == old(plane).accepted(),
        exists|lifecycle: Step| #[trigger]
            crate::control_plane::resumes(
                old(plane).accepted().id,
                old(plane).state(),
                waiting,
                reply,
                final(plane).state(),
                lifecycle,
            ) && carries(step, lifecycle, id@),
{
    let lifecycle = plane.resume(waiting, reply);
    carry(lifecycle, id)
}

/// The result of a tool call that carries that text.
pub open spec fn text_result(text: Seq<char>) -> JsonView {
    JsonView::Object(
        map![
            "content"@ => JsonView::Array(seq![JsonView::Object(map![
                "type"@ => JsonView::Text("text"@),
                "text"@ => JsonView::Text(text)
            ])])
        ],
    )
}

/// The message that carries an error.
pub open spec fn fault_envelope(id: JsonView, code: i64, words: Seq<char>) -> JsonView {
    JsonView::Object(
        map![
            "jsonrpc"@ => JsonView::Text("2.0"@),
            "id"@ => id,
            "error"@ => JsonView::Object(
                map!["code"@ => crate::json::integer(code), "message"@ => JsonView::Text(words)],
            )
        ],
    )
}

/// The message that carries an answer; a report is carried as the text it is
/// written as.
pub open spec fn envelope(id: JsonView, body: RpcBody, written: Seq<char>) -> JsonView {
    let plain = map!["jsonrpc"@ => JsonView::Text("2.0"@), "id"@ => id];
    match body {
        RpcBody::Outcome(outcome) => JsonView::Object(plain.insert("result"@, outcome@)),
        RpcBody::Report(_) => JsonView::Object(plain.insert("result"@, text_result(written))),
        RpcBody::Fault { code, message } => fault_envelope(id, code, message@),
    }
}

/// Builds one part of a tool result.
fn text_part(text: String) -> (json: Json)
    ensures
        json@ == JsonView::Object(map!["type"@ => JsonView::Text("text"@), "text"@ => JsonView::Text(text@)]),
{
    Json::object().with("type", Json::text("text")).with("text", Json::Text(text))
}

/// Builds the message that carries an answer. A report is handed over as the
/// text it is written as; the other answers carry none.
pub fn message(id: Json, body: RpcBody, written: String) -> (message: Json)
    ensures
        message@ == envelope(id@, body, written@),
{
    let plain = Json::object().with("jsonrpc", Json::text("2.0")).with("id", id);
    match body {
        RpcBody::Outcome(outcome) => plain.with("result", outcome),
        RpcBody::Report(_) => {
            let part = text_part(written);
            let ghost said = part@;
            let mut parts: Vec<Json> = Vec::new();
            parts.push(part);
            assert(crate::json::items_view(parts@) =~= seq![said]);
            plain.with("result", Json::object().with("content", Json::Array(parts)))
        },
        RpcBody::Fault { code, message } => plain.with(
            "error",
            Json::object().with("code", Json::integer(code)).with("message", Json::Text(message)),
        ),
    }
}

/// Whether a text reads back as the report that it is to carry.
pub fn carries_report(report: &Json, written: &str) -> (yes: bool)
    ensures
        yes == (crate::json::json_read(written@) == Ok::<JsonView, Seq<char>>(report@)),
{
    match read_json(written) {
        Ok(json) => json.same(report),
        Err(_) => false,
    }
}

/// What is said of a report whose text does not read back.
pub const LOST_REPORT: &'static str = "the report does not read back from its text";

/// The message that is sent for an answer, given the text that a report was
/// written as, or why it could not be written. A report is carried only by a text
/// that reads back as it.
pub open spec fn delivered(id: JsonView, body: RpcBody, written: Result<String, String>, message: JsonView) -> bool {
    match (body, written) {
        (RpcBody::Report(report), Ok(text)) => if crate::json::json_read(text@) == Ok::<JsonView, Seq<char>>(report@) {
            message == envelope(id, body, text@)
        } else {
            message == fault_envelope(id, INVALID_PARAMS, LOST_REPORT@)
        },
        (RpcBody::Report(_), Err(why)) => message == fault_envelope(id, INVALID_PARAMS, why@),
        _ => message == envelope(id, body, Seq::empty()),
    }
}

/// Builds the message that is sent for an answer.
pub fn deliver(id: Json, body: RpcBody, written: Result<String, String>) -> (sent: Json)
    ensures
        delivered(id@, body, written, sent@),
{
    match body {
        RpcBody::Report(report) => match written {
            Ok(text) => if carries_report(&report, text.as_str()) {
                message(id, RpcBody::Report(report), text)
            } else {
                message(
                    id,
                    RpcBody::Fault { code: INVALID_PARAMS, message: LOST_REPORT.to_owned() },
                    String::new(),
                )
            },
            Err(why) => message(id, RpcBody::Fault { code: INVALID_PARAMS, message: why }, String::new()),
        },
        other => message(id, other, String::new()),
    }
}

/// The text of every report that is sent reads back as the report.
pub proof fn a_sent_report_reads_back(id: JsonView, report: Json, written: Result<String, String>, sent: JsonView)
    requires
        delivered(id, RpcBody::Report(report), written, sent),
        crate::json::member(sent, "result"@) is Some,
    ensures
        written matches Ok(text) && crate::json::json_read(text@) == Ok::<JsonView, Seq<char>>(report@)
            && crate::json::member(sent, "result"@) == Some(text_result(text@)),
{
    reveal_strlit("result");
    reveal_strlit("error");
    reveal_strlit("jsonrpc");
    reveal_strlit("id");
    assert("result"@.len() == 6 && "error"@.len() == 5 && "jsonrpc"@.len() == 7 && "id"@.len() == 2);
}

/// The journal file that a command line names: the argument after the first
/// `--journal` that has one.
pub open spec fn named_journal(args: Seq<Seq<char>>) -> Option<Seq<char>>
    decreases args.len(),
{
    if args.len() < 2 {
        None
    } else if args[0] == "--journal"@ {
        Some(args[1])
    } else {
        named_journal(args.drop_first())
    }
}

/// Chooses the journal file: the command line's, the inherited one, or the
/// default.
pub fn journal_path(args: &Vec<String>, inherited: Option<String>) -> (path: String)
    ensures
        path@ == match named_journal(crate::watchdog::texts(args@)) {
            Some(named) => named,
            None => match inherited {
                Some(named) => named@,
                None => crate::watchdog::DEFAULT_JOURNAL@,
            },
        },
{
    let ghost all = crate::watchdog::texts(args@);
    let mut i: usize = 0;
    assert(all.skip(0) =~= all);
    while args.len() - i > 1
        invariant
            i <= args.len(),
            all == crate::watchdog::texts(args@),
            named_journal(all) == named_journal(all.skip(i as int)),
        decreases args.len() - i,
    {
        proof {
            assert(all.skip(i as int)[0] == args[i as int]@);
            assert(all.skip(i as int)[1] == args[i + 1]@);
            assert(all.skip(i as int).drop_first() =~= all.skip(i + 1));
        }
        if same_text(args[i].as_str(), "--journal") {
            return args[i + 1].clone();
        }
        i = i + 1;
    }
    match inherited {
        Some(named) => named,
        None => DEFAULT_JOURNAL.to_owned(),
    }
}

/// A request that the policy denies is answered with a refused tool call and
/// hands nothing to the journal.
pub proof fn a_denied_call_is_a_tool_result<P: Provider>(
    accepted: ManifestView,
    provider: P,
    id: JsonView,
    request: RequestView,
    lifecycle: Step,
    step: GatewayStep,
)
    requires
        crate::control_plane::starts(accepted, provider, request, lifecycle),
        carries(step, lifecycle, id),
        !(crate::control_plane::policy(accepted, request) is Allowed),
        !(crate::control_plane::policy(accepted, request) is Unknown),
    ensures
        exists|words: Seq<char>| answers(step, id, refused_tool(words)),
{
    if let Step::Done(Err(error)) = lifecycle {
        assert(answers(step, id, refused_tool(error.sentence())));
    }
}

/// The value schema that the tool advertises is the one that the provider's
/// capability registers.
pub proof fn the_advertised_schema_is_the_registered_one()
    ensures
        ({
            let advertised = crate::json::member(lifecycle_schema(), "properties"@)->0;
            let registered = crate::json::member(crate::mock::mock_schema(), "properties"@)->0;
            crate::json::member(advertised, "value"@) == crate::json::member(registered, "value"@)
                && crate::json::member(advertised, "value"@) is Some
        }),
{
    reveal_strlit("value");
    reveal_strlit("lease_seconds");
    reveal_strlit("properties");
    reveal_strlit("required");
    reveal_strlit("type");
    assert("value"@.len() != "lease_seconds"@.len());
    assert("properties"@.len() == 10 && "required"@.len() == 8 && "type"@.len() == 4);
    let advertised = crate::json::member(lifecycle_schema(), "properties"@)->0;
    assert(crate::json::member(advertised, "value"@) == Some(crate::mock::value_schema()));
}

} // verus!
