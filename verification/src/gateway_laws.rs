//! What a client of the gateway can rely on, message by message.
use vstd::prelude::*;

use crate::contracts::{ManifestView, RiskClass, StateSnapshot};
use crate::control_plane::{ControlPlane, LifecycleResult, Step};
use crate::gateway::{journal_path, serve_line, GatewayStep, RpcBody};
use crate::json::{Json, JsonView};
use crate::provider::{Provider, ProviderError};

verus! {

/// The method names of the gateway are all different.
proof fn lemma_methods_differ()
    ensures
        "initialize"@ != "tools/list"@,
        "initialize"@ != "tools/call"@,
        "tools/list"@ != "tools/call"@,
        "fpsmaxxing.capabilities"@ != "fpsmaxxing.run_mock_lifecycle"@,
{
    reveal_strlit("initialize");
    reveal_strlit("tools/list");
    reveal_strlit("tools/call");
    reveal_strlit("fpsmaxxing.capabilities");
    reveal_strlit("fpsmaxxing.run_mock_lifecycle");
    assert("initialize"@[0] == 'i' && "tools/list"@[0] == 't' && "tools/call"@[0] == 't');
    assert("tools/list"@[6] == 'l' && "tools/call"@[6] == 'c');
    assert("fpsmaxxing.capabilities"@.len() == 23 && "fpsmaxxing.run_mock_lifecycle"@.len() == 29);
}

/// A message is passed over in silence exactly where it is an object without an
/// id, and every answer goes out under the id that the message had.
pub proof fn an_answer_goes_out_under_its_own_id<P: Provider>(
    accepted: ManifestView,
    provider: P,
    request: JsonView,
    step: GatewayStep,
)
    requires
        crate::gateway::dispatches(accepted, provider, request, step),
    ensures
        step is Silent <==> (request matches JsonView::Object(members) && !members.contains_key("id"@)),
        step matches GatewayStep::Answer { id, .. } ==> id@ == match request {
            JsonView::Object(members) => members["id"@],
            _ => JsonView::Null,
        },
        step matches GatewayStep::Write { id, .. } ==> (request matches JsonView::Object(members) && id@
            == members["id"@]),
{
    lemma_methods_differ();
}

/// A message whose method the gateway does not have is answered with the code
/// for that and no other is, and one without a method is told so.
pub proof fn an_unknown_method_is_named<P: Provider>(
    accepted: ManifestView,
    provider: P,
    members: Map<Seq<char>, JsonView>,
    method: Seq<char>,
    step: GatewayStep,
)
    requires
        crate::gateway::dispatches(accepted, provider, JsonView::Object(members), step),
        members.contains_key("id"@),
        members.contains_key("method"@),
        members["method"@] == JsonView::Text(method),
    ensures
        (method != "initialize"@ && method != "tools/list"@ && method != "tools/call"@) <==> (step matches
            GatewayStep::Answer { body: RpcBody::Fault { code, .. }, .. } && code == -32601),
        step matches GatewayStep::Answer { body: RpcBody::Fault { code, message }, .. } ==> (code == -32601
            ==> message@ == "unsupported MCP method: "@ + method),
        method == "initialize"@ || method == "tools/list"@ ==> (step matches GatewayStep::Answer {
            body: RpcBody::Outcome(_),
            ..
        }),
        step is Write ==> method == "tools/call"@,
{
    lemma_methods_differ();
}

/// Only the two listed tools can be called: any other name is refused as an
/// unknown tool.
pub proof fn only_the_listed_tools_can_be_called<P: Provider>(
    accepted: ManifestView,
    provider: P,
    id: JsonView,
    params: Map<Seq<char>, JsonView>,
    name: Seq<char>,
    step: GatewayStep,
)
    requires
        crate::gateway::calls(accepted, provider, id, JsonView::Object(params), step),
        params.contains_key("name"@),
        params["name"@] == JsonView::Text(name),
    ensures
        ({
            let listed = crate::json::member(crate::gateway::tools(), "tools"@)->0->Array_0;
            let offered = exists|i: int|
                0 <= i < listed.len() && crate::json::member(#[trigger] listed[i], "name"@) == Some(
                    JsonView::Text(name),
                );
            &&& listed.len() == 2
            &&& offered <==> name == "fpsmaxxing.capabilities"@ || name == "fpsmaxxing.run_mock_lifecycle"@
            &&& !offered ==> (step matches GatewayStep::Answer { id: answered, body: RpcBody::Fault { code, message } }
                && answered@ == id && code == -32602 && message@ == "unknown tool: "@ + name)
        }),
{
    lemma_methods_differ();
    reveal_strlit("name");
    reveal_strlit("description");
    reveal_strlit("inputSchema");
    assert("name"@.len() == 4 && "description"@.len() == 11 && "inputSchema"@.len() == 11);
    let listed = crate::json::member(crate::gateway::tools(), "tools"@)->0->Array_0;
    assert(crate::json::member(listed[0], "name"@) == Some(JsonView::Text("fpsmaxxing.capabilities"@)));
    assert(crate::json::member(listed[1], "name"@) == Some(JsonView::Text("fpsmaxxing.run_mock_lifecycle"@)));
}

/// A lifecycle call runs the change that its arguments ask for: the value and the
/// lease of the change are those of the arguments, whatever they are, and nothing
/// else is asked for. A lease above 300 seconds or a value above 100 is answered
/// with a refused tool result and runs nothing; within them the change starts.
pub proof fn a_lifecycle_call_asks_for_what_its_arguments_say<P: Provider>(
    accepted: ManifestView,
    provider: P,
    id: JsonView,
    params: Map<Seq<char>, JsonView>,
    arguments: Map<Seq<char>, JsonView>,
    lease: u64,
    at: int,
    step: GatewayStep,
)
    requires
        crate::gateway::calls(accepted, provider, id, JsonView::Object(params), step),
        params.contains_key("name"@),
        params["name"@] == JsonView::Text("fpsmaxxing.run_mock_lifecycle"@),
        params.contains_key("arguments"@),
        params["arguments"@] == JsonView::Object(arguments),
        arguments.contains_key("lease_seconds"@),
        arguments["lease_seconds"@] == JsonView::Unsigned(lease),
        lease > 0,
        crate::control_laws::leads(accepted.capabilities, "mock.value"@, at),
        accepted.capabilities[at].risk == RiskClass::Reversible,
    ensures
        step matches GatewayStep::Write { pending, .. } ==> {
            &&& pending.request@.lease_seconds == lease
            &&& pending.request@.capability_id == "mock.value"@
            &&& arguments.contains_key("value"@)
            &&& pending.request@.parameters == JsonView::Object(map!["value"@ => arguments["value"@]])
            &&& lease <= 300
            &&& arguments["value"@] matches JsonView::Unsigned(value)
            &&& value <= 100
        },
        lease > 300 ==> refused_as(step, id, "policy denied request: lease exceeds 300 seconds"@),
        lease <= 300 && arguments.contains_key("value"@) ==> match arguments["value"@] {
            JsonView::Unsigned(value) => if value > 100 {
                refused_as(step, id, "policy denied request: mock.value is bounded to 0..=100"@)
            } else {
                (forall|outcome: Result<StateSnapshot, ProviderError>| #[trigger]
                    provider.may_snapshot(outcome) ==> outcome is Ok) ==> step is Write
            },
            _ => refused_as(step, id, "policy denied request: mock.value requires an unsigned value"@),
        },
        lease <= 300 && !arguments.contains_key("value"@) ==> refused_as(
            step,
            id,
            "policy denied request: mock.value requires an unsigned value"@,
        ),
{
    lemma_methods_differ();
    crate::control_laws::the_first_capability_of_a_name_is_meant(accepted.capabilities, "mock.value"@, at);
    reveal_strlit("content");
    reveal_strlit("isError");
    reveal_strlit("type");
    reveal_strlit("text");
    assert("content"@.len() == 7 && "isError"@.len() == 7 && "content"@[0] == 'c' && "isError"@[0] == 'i');
    assert("type"@[1] == 'y' && "text"@[1] == 'e');
    let request = crate::gateway::lifecycle_request(JsonView::Object(arguments))->0;
    let lifecycle = choose|lifecycle: Step| #[trigger]
        crate::control_plane::starts(accepted, provider, request, lifecycle) && crate::gateway::carries(
            step,
            lifecycle,
            id,
        );
    assert(crate::control_plane::starts(accepted, provider, request, lifecycle));
    assert(request.parameters->Object_0.contains_key("value"@));
    lemma_denials_are_worded();
}

/// The words of a denial.
proof fn lemma_denials_are_worded()
    ensures
        "policy denied request: lease exceeds 300 seconds"@ == "policy denied request: "@ + "lease exceeds 300 seconds"@,
        "policy denied request: mock.value is bounded to 0..=100"@ == "policy denied request: "@
            + "mock.value is bounded to 0..=100"@,
        "policy denied request: mock.value requires an unsigned value"@ == "policy denied request: "@
            + "mock.value requires an unsigned value"@,
{
    reveal_strlit("policy denied request: ");
    reveal_strlit("policy denied request: lease exceeds 300 seconds");
    reveal_strlit("lease exceeds 300 seconds");
    reveal_strlit("policy denied request: mock.value is bounded to 0..=100");
    reveal_strlit("mock.value is bounded to 0..=100");
    reveal_strlit("policy denied request: mock.value requires an unsigned value");
    reveal_strlit("mock.value requires an unsigned value");
    assert("policy denied request: lease exceeds 300 seconds"@ =~= "policy denied request: "@
        + "lease exceeds 300 seconds"@);
    assert("policy denied request: mock.value is bounded to 0..=100"@ =~= "policy denied request: "@
        + "mock.value is bounded to 0..=100"@);
    assert("policy denied request: mock.value requires an unsigned value"@ =~= "policy denied request: "@
        + "mock.value requires an unsigned value"@);
}

/// The step answers with a tool result that is marked as an error and carries
/// those words as its one text.
pub open spec fn refused_as(step: GatewayStep, id: JsonView, words: Seq<char>) -> bool {
    &&& step matches GatewayStep::Answer { id: answered, body: RpcBody::Outcome(outcome) }
    &&& answered@ == id
    &&& outcome@ is Object
    &&& outcome@->Object_0["isError"@] == JsonView::Bool(true)
    &&& outcome@->Object_0["content"@] is Array
    &&& outcome@->Object_0["content"@]->Array_0.len() == 1
    &&& outcome@->Object_0["content"@]->Array_0[0] is Object
    &&& outcome@->Object_0["content"@]->Array_0[0]->Object_0["text"@] == JsonView::Text(words)
}

/// Calls that differ in lease or value ask for different changes.
pub proof fn different_calls_ask_for_different_changes(a: JsonView, b: JsonView)
    requires
        crate::gateway::lifecycle_request(a) is Some,
        crate::gateway::lifecycle_request(a) == crate::gateway::lifecycle_request(b),
    ensures
        crate::json::member(a, "lease_seconds"@) == crate::json::member(b, "lease_seconds"@),
        crate::gateway::member_or_null(a, "value"@) == crate::gateway::member_or_null(b, "value"@),
{
    let one = crate::gateway::lifecycle_request(a)->0;
    let other = crate::gateway::lifecycle_request(b)->0;
    assert(one.parameters->Object_0["value"@] == other.parameters->Object_0["value"@]);
}

/// A call without a positive lease, or without arguments, runs nothing and is an
/// error of the call.
pub proof fn a_call_without_a_lease_runs_nothing<P: Provider>(
    accepted: ManifestView,
    provider: P,
    id: JsonView,
    params: Map<Seq<char>, JsonView>,
    step: GatewayStep,
)
    requires
        crate::gateway::calls(accepted, provider, id, JsonView::Object(params), step),
        params.contains_key("name"@),
        params["name"@] == JsonView::Text("fpsmaxxing.run_mock_lifecycle"@),
        !(params.contains_key("arguments"@) && (params["arguments"@] matches JsonView::Object(arguments)
            && arguments.contains_key("lease_seconds"@) && (arguments["lease_seconds"@] matches JsonView::Unsigned(n)
            && n > 0))),
    ensures
        step matches GatewayStep::Answer { id: answered, body: RpcBody::Fault { code, .. } } && answered@ == id && code
            == -32602,
{
    lemma_methods_differ();
    if params.contains_key("arguments"@) {
        let arguments = params["arguments"@];
        if crate::gateway::lifecycle_request(arguments) is None {
            let negative_zero = choose|negative_zero: bool| #[trigger]
                crate::gateway::refuses_lease(
                    step,
                    id,
                    crate::gateway::member_or_null(arguments, "lease_seconds"@),
                    negative_zero,
                );
            assert(crate::gateway::refuses_lease(
                step,
                id,
                crate::gateway::member_or_null(arguments, "lease_seconds"@),
                negative_zero,
            ));
        }
    }
}

/// A finished lifecycle is reported with its own provider, preview and flags.
pub proof fn a_report_says_what_the_lifecycle_came_to(result: LifecycleResult, step: GatewayStep, id: JsonView)
    requires
        crate::gateway::carries(step, Step::Done(Ok(result)), id),
    ensures
        step matches GatewayStep::Answer { id: answered, body: RpcBody::Report(report) } && answered@ == id && (
        report@ matches JsonView::Object(members) && members["provider_id"@] == JsonView::Text(result.provider_id@)
            && members["preview"@] == JsonView::Text(result.preview@) && members["verified"@] == JsonView::Bool(
            result.verified,
        ) && members["rolled_back"@] == JsonView::Bool(result.rolled_back)),
{
    reveal_strlit("provider_id");
    reveal_strlit("preview");
    reveal_strlit("verified");
    reveal_strlit("rolled_back");
    assert("provider_id"@.len() == 11 && "preview"@.len() == 7 && "verified"@.len() == 8 && "rolled_back"@.len() == 11);
    assert("provider_id"@[0] == 'p' && "rolled_back"@[0] == 'r');
}

/// A lifecycle that hands out a record hands it out unchanged, and one that fails
/// is a refused tool result where the policy denied it and an error of the call
/// otherwise, in the error's own words.
pub proof fn a_failure_is_told_in_its_own_words(
    lifecycle: Step,
    step: GatewayStep,
    id: JsonView,
)
    requires
        crate::gateway::carries(step, lifecycle, id),
    ensures
        lifecycle matches Step::Write { entry, pending } ==> (step matches GatewayStep::Write {
            entry: written,
            pending: kept,
            id: answered,
        } && written == entry && kept == pending && answered@ == id),
        lifecycle matches Step::Done(Err(error)) ==> if error is PolicyDenied {
            refused_as(step, id, error.sentence())
        } else {
            step matches GatewayStep::Answer { id: answered, body: RpcBody::Fault { code, message } } && answered@ == id
                && code == -32602 && message@ == error.sentence()
        },
{
    reveal_strlit("content");
    reveal_strlit("isError");
    reveal_strlit("type");
    reveal_strlit("text");
    assert("content"@.len() == 7 && "isError"@.len() == 7 && "content"@[0] == 'c' && "isError"@[0] == 'i');
    assert("type"@[1] == 'y' && "text"@[1] == 'e');
}

/// A message carries the version and the id, and either a result or an error.
pub proof fn a_message_carries_one_answer(id: JsonView, body: RpcBody, written: Seq<char>)
    ensures
        ({
            let message = crate::gateway::envelope(id, body, written);
            &&& crate::json::member(message, "jsonrpc"@) == Some(JsonView::Text("2.0"@))
            &&& crate::json::member(message, "id"@) == Some(id)
            &&& crate::json::member(message, "error"@) is Some <==> body is Fault
            &&& crate::json::member(message, "result"@) is None <==> body is Fault
            &&& body matches RpcBody::Outcome(outcome) ==> crate::json::member(message, "result"@) == Some(outcome@)
            &&& body matches RpcBody::Fault { code, message: words } ==> {
                let error = crate::json::member(message, "error"@)->0;
                &&& crate::json::member(error, "message"@) == Some(JsonView::Text(words@))
                &&& code < 0 ==> crate::json::member(error, "code"@) == Some(JsonView::Negative(code))
                &&& code >= 0 ==> crate::json::member(error, "code"@) == Some(JsonView::Unsigned(code as u64))
            }
        }),
{
    reveal_strlit("jsonrpc");
    reveal_strlit("id");
    reveal_strlit("error");
    reveal_strlit("result");
    reveal_strlit("code");
    reveal_strlit("message");
    assert("jsonrpc"@.len() == 7 && "id"@.len() == 2 && "error"@.len() == 5 && "result"@.len() == 6);
    assert("code"@.len() == 4 && "message"@.len() == 7);
}

/// A report is sent as the one text of a tool result.
pub proof fn a_report_is_one_text(id: JsonView, report: Json, written: Seq<char>)
    ensures
        ({
            let result = crate::json::member(crate::gateway::envelope(id, RpcBody::Report(report), written), "result"@)->0;
            let content = crate::json::member(result, "content"@)->0;
            &&& crate::json::member(result, "isError"@) is None
            &&& content is Array
            &&& content->Array_0.len() == 1
            &&& crate::json::member(content->Array_0[0], "type"@) == Some(JsonView::Text("text"@))
            &&& crate::json::member(content->Array_0[0], "text"@) == Some(JsonView::Text(written))
        }),
{
    reveal_strlit("jsonrpc");
    reveal_strlit("id");
    reveal_strlit("result");
    reveal_strlit("content");
    reveal_strlit("isError");
    reveal_strlit("type");
    reveal_strlit("text");
    assert("jsonrpc"@.len() == 7 && "id"@.len() == 2 && "result"@.len() == 6);
    assert("content"@.len() == 7 && "isError"@.len() == 7 && "content"@[0] == 'c' && "isError"@[0] == 'i');
    assert("type"@[1] == 'y' && "text"@[1] == 'e');
}

/// The journal is the value behind the first flag that has one, wherever in the
/// command line it stands.
pub proof fn the_first_journal_flag_decides(before: Seq<Seq<char>>, named: Seq<char>, rest: Seq<Seq<char>>)
    requires
        forall|i: int| 0 <= i < before.len() ==> (#[trigger] before[i]) != "--journal"@,
    ensures
        crate::gateway::named_journal(before + seq!["--journal"@, named] + rest) == Some(named),
        crate::gateway::named_journal(before) is None,
        crate::gateway::named_journal(before.push("--journal"@)) is None,
    decreases before.len(),
{
    let all = before + seq!["--journal"@, named] + rest;
    if before.len() == 0 {
        assert(all[0] == "--journal"@ && all[1] == named);
    } else {
        let fewer = before.drop_first();
        assert forall|i: int| 0 <= i < fewer.len() implies (#[trigger] fewer[i]) != "--journal"@ by {
            assert(fewer[i] == before[i + 1]);
        }
        the_first_journal_flag_decides(fewer, named, rest);
        assert(all.drop_first() =~= fewer + seq!["--journal"@, named] + rest);
        assert(all[0] == before[0]);
        assert(before.push("--journal"@).drop_first() =~= fewer.push("--journal"@));
        assert(before.push("--journal"@)[0] == before[0]);
    }
}

/// A line that is not JSON is answered, without an id and with the code for that,
/// in the words in which it was refused; any other is handled as a message.
pub proof fn a_line_that_is_not_json_is_answered<P: Provider>(plane: ControlPlane<P>, line: &str, step: GatewayStep)
    requires
        call_ensures(serve_line::<P>, (&plane, line), step),
    ensures
        crate::json::json_read(line@) matches Err(words) ==> (step matches GatewayStep::Answer {
            id,
            body: RpcBody::Fault { code, message },
        } && id@ == JsonView::Null && code == -32700 && message@ == words),
        crate::json::json_read(line@) matches Ok(request) ==> crate::gateway::dispatches(
            plane.accepted(),
            plane.state(),
            request,
            step,
        ),
{
}

/// Discovery reports the whole accepted manifest, and a call without a name and a
/// message without a method are told what is missing.
pub proof fn discovery_reports_the_accepted_manifest<P: Provider>(
    accepted: ManifestView,
    provider: P,
    id: JsonView,
    params: JsonView,
    step: GatewayStep,
)
    requires
        crate::gateway::calls(accepted, provider, id, params, step),
    ensures
        crate::json::member(params, "name"@) == Some(JsonView::Text("fpsmaxxing.capabilities"@)) ==> (step matches
            GatewayStep::Answer { id: answered, body: RpcBody::Report(report) } && answered@ == id && report@
            == crate::contracts::manifest_json(accepted)),
        !(crate::json::member(params, "name"@) matches Some(JsonView::Text(_))) ==> (step matches GatewayStep::Answer {
            id: answered,
            body: RpcBody::Fault { code, message },
        } && answered@ == id && code == -32602 && message@ == "missing tool name"@),
{
    lemma_methods_differ();
}

/// The lifecycle tool asks for a value from 0 to 100 and a lease from 1 to 300
/// seconds, requires both and takes nothing else.
pub proof fn the_lifecycle_tool_asks_for_a_bounded_change()
    ensures
        ({
            let schema = crate::gateway::lifecycle_schema();
            let properties = crate::json::member(schema, "properties"@)->0;
            let value = crate::json::member(properties, "value"@)->0;
            let lease = crate::json::member(properties, "lease_seconds"@)->0;
            &&& crate::json::member(schema, "additionalProperties"@) == Some(JsonView::Bool(false))
            &&& crate::json::member(schema, "required"@) == Some(
                JsonView::Array(seq![JsonView::Text("value"@), JsonView::Text("lease_seconds"@)]),
            )
            &&& crate::json::member(value, "minimum"@) == Some(JsonView::Unsigned(0))
            &&& crate::json::member(value, "maximum"@) == Some(JsonView::Unsigned(100))
            &&& crate::json::member(lease, "minimum"@) == Some(JsonView::Unsigned(1))
            &&& crate::json::member(lease, "maximum"@) == Some(JsonView::Unsigned(300))
            &&& crate::json::member(value, "type"@) == Some(JsonView::Text("integer"@))
            &&& crate::json::member(lease, "type"@) == Some(JsonView::Text("integer"@))
        }),
{
    reveal_strlit("properties");
    reveal_strlit("additionalProperties");
    reveal_strlit("required");
    reveal_strlit("type");
    reveal_strlit("value");
    reveal_strlit("lease_seconds");
    reveal_strlit("minimum");
    reveal_strlit("maximum");
    assert("properties"@.len() == 10 && "additionalProperties"@.len() == 20 && "required"@.len() == 8);
    assert("type"@.len() == 4 && "value"@.len() == 5 && "lease_seconds"@.len() == 13);
    assert("minimum"@.len() == 7 && "maximum"@.len() == 7 && "minimum"@[1] == 'i' && "maximum"@[1] == 'a');
}

/// A report is sent only by a text that reads back as it; one that does not, or
/// that could not be written, is an error under the same id.
pub proof fn a_lost_report_is_an_error(id: JsonView, report: Json, written: Result<String, String>, sent: JsonView)
    requires
        crate::gateway::delivered(id, RpcBody::Report(report), written, sent),
    ensures
        crate::json::member(sent, "id"@) == Some(id),
        crate::json::member(sent, "result"@) is Some <==> (written matches Ok(text) && crate::json::json_read(text@)
            == Ok::<JsonView, Seq<char>>(report@)),
        written matches Err(why) ==> (crate::json::member(sent, "error"@) matches Some(error) && crate::json::member(
            error,
            "message"@,
        ) == Some(JsonView::Text(why@)) && crate::json::member(error, "code"@) == Some(JsonView::Negative((-32602) as i64))),
{
    reveal_strlit("jsonrpc");
    reveal_strlit("id");
    reveal_strlit("error");
    reveal_strlit("result");
    reveal_strlit("code");
    reveal_strlit("message");
    assert("jsonrpc"@.len() == 7 && "id"@.len() == 2 && "error"@.len() == 5 && "result"@.len() == 6);
    assert("code"@.len() == 4 && "message"@.len() == 7);
}

/// An answer that is no report is sent as it is, whatever text comes with it.
pub proof fn other_answers_are_sent_as_they_are(id: JsonView, body: RpcBody, written: Result<String, String>, sent: JsonView)
    requires
        crate::gateway::delivered(id, body, written, sent),
        !(body is Report),
    ensures
        sent == crate::gateway::envelope(id, body, Seq::empty()),
        body matches RpcBody::Outcome(outcome) ==> crate::json::member(sent, "result"@) == Some(outcome@),
        crate::json::member(sent, "id"@) == Some(id),
{
    a_message_carries_one_answer(id, body, Seq::empty());
}

/// The journal is the one that the command line names first, else the inherited
/// one, else the default.
pub proof fn a_named_journal_wins(args: Vec<String>, inherited: Option<String>, path: String)
    requires
        call_ensures(journal_path, (&args, inherited), path),
    ensures
        args@.len() >= 2 && args@[0]@ == "--journal"@ ==> path@ == args@[1]@,
        (forall|i: int| 0 <= i < args@.len() ==> (#[trigger] args@[i])@ != "--journal"@) ==> path@ == match inherited {
            Some(named) => named@,
            None => "fpsmaxxing-journal.sqlite"@,
        },
{
    let all = crate::watchdog::texts(args@);
    if args@.len() >= 2 {
        assert(all[0] == args@[0]@ && all[1] == args@[1]@);
    }
    if forall|i: int| 0 <= i < args@.len() ==> (#[trigger] args@[i])@ != "--journal"@ {
        assert forall|i: int| 0 <= i < all.len() implies (#[trigger] all[i]) != "--journal"@ by {
            assert(all[i] == args@[i]@);
        }
        the_first_journal_flag_decides(all, Seq::empty(), Seq::empty());
    }
}

} // verus!
