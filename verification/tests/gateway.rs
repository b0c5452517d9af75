//! The MCP gateway, line by line.

use fpsmaxxing::control_plane::ControlPlane;
use fpsmaxxing::gateway::{
    carries_report, deliver, journal_path, message, resume_call, serve_line, GatewayStep, RpcBody,
    INVALID_PARAMS, LOST_REPORT, METHOD_NOT_FOUND, PARSE_ERROR,
};
use fpsmaxxing::json::Json;
use fpsmaxxing::mock::MockProvider;

const HOST: &str = "linux";

/// A gateway whose journal is a list of stage names.
struct Gateway {
    plane: ControlPlane<MockProvider>,
    stages: Vec<&'static str>,
}

impl Gateway {
    fn new() -> Self {
        Self {
            plane: ControlPlane::open(MockProvider::new(0, HOST), HOST).expect("plane"),
            stages: Vec::new(),
        }
    }

    /// Serves one line; `None` where the gateway stays silent.
    fn serve(&mut self, line: &str) -> Option<(Json, RpcBody)> {
        let mut step = serve_line(&self.plane, line);
        loop {
            step = match step {
                GatewayStep::Silent => return None,
                GatewayStep::Answer { id, body } => return Some((id, body)),
                GatewayStep::Write { entry, pending, id } => {
                    self.stages.push(entry.stage.name());
                    let experiment = entry.experiment_id.unwrap_or(1);
                    resume_call(&mut self.plane, pending, id, Ok(experiment))
                }
            };
        }
    }

    fn outcome(&mut self, line: &str) -> Json {
        match self.serve(line) {
            Some((_, RpcBody::Outcome(json))) => json,
            _ => panic!("{line} should be answered with a result"),
        }
    }

    fn fault(&mut self, line: &str) -> (i64, String) {
        match self.serve(line) {
            Some((_, RpcBody::Fault { code, message })) => (code, message),
            _ => panic!("{line} should be answered with an error"),
        }
    }
}

fn member<'a>(json: &'a Json, path: &[&str]) -> &'a Json {
    path.iter()
        .fold(json, |at, name| at.get(name).expect("the member exists"))
}

fn items(json: &Json) -> &Vec<Json> {
    match json {
        Json::Array(items) => items,
        _ => panic!("an array was expected"),
    }
}

#[test]
fn gateway_survives_protocol_errors_and_ignores_notifications() {
    let mut gateway = Gateway::new();
    assert!(matches!(
        gateway.serve(r#"{"jsonrpc":"2.0","id":1,"method":"initialize","params":{}}"#),
        Some((Json::Unsigned(1), RpcBody::Outcome(_)))
    ));

    assert!(
        gateway
            .serve(r#"{"jsonrpc":"2.0","method":"notifications/initialized"}"#)
            .is_none(),
        "notifications must not receive responses"
    );
    assert!(matches!(
        gateway.serve(r#"{"jsonrpc":"2.0","id":2,"method":"tools/list","params":{}}"#),
        Some((Json::Unsigned(2), RpcBody::Outcome(_)))
    ));

    assert!(matches!(
        gateway.serve("this line is not json"),
        Some((Json::Null, RpcBody::Fault { code: -32700, .. }))
    ));

    assert!(matches!(
        gateway.serve(r#"{"jsonrpc":"2.0","id":3,"method":"resources/list","params":{}}"#),
        Some((_, RpcBody::Fault { code: -32601, .. }))
    ));

    let denied = gateway.outcome(
        r#"{"jsonrpc":"2.0","id":4,"method":"tools/call","params":{"name":"fpsmaxxing.run_mock_lifecycle","arguments":{"value":101,"lease_seconds":30}}}"#,
    );
    assert_eq!(*member(&denied, &["isError"]), Json::Bool(true));
    assert!(
        gateway.stages.is_empty(),
        "denied requests must not reach the journal"
    );
}

#[test]
fn a_client_discovers_capabilities_and_runs_a_lifecycle() {
    let mut gateway = Gateway::new();
    let greeting = gateway.outcome(r#"{"id":1,"method":"initialize"}"#);
    assert_eq!(
        member(&greeting, &["protocolVersion"]).as_str(),
        Some("2025-03-26")
    );
    assert_eq!(
        member(&greeting, &["serverInfo", "name"]).as_str(),
        Some("fpsmaxxing-gateway")
    );

    let listing = gateway.outcome(r#"{"id":2,"method":"tools/list"}"#);
    let tools = items(member(&listing, &["tools"]));
    assert_eq!(tools.len(), 2);
    let advertised = member(&tools[1], &["inputSchema", "properties", "value"]).clone();

    let Some((_, RpcBody::Report(manifest))) = gateway.serve(
        r#"{"id":3,"method":"tools/call","params":{"name":"fpsmaxxing.capabilities","arguments":{}}}"#,
    ) else {
        panic!("the catalog was expected");
    };
    assert_eq!(member(&manifest, &["id"]).as_str(), Some("mock"));
    assert_eq!(
        *member(&manifest, &["protocol_version"]),
        Json::Unsigned(1)
    );
    assert_eq!(
        *member(&manifest, &["targets"]),
        Json::Array(vec![Json::text(HOST)])
    );
    let capability = &items(member(&manifest, &["capabilities"]))[0];
    assert_eq!(member(capability, &["id"]).as_str(), Some("mock.value"));
    assert_eq!(member(capability, &["risk"]).as_str(), Some("reversible"));
    assert_eq!(
        member(capability, &["persistence"]).as_str(),
        Some("leased")
    );
    assert_eq!(
        advertised,
        *member(capability, &["input_schema", "properties", "value"]),
        "the listed schema must match the capability registry"
    );

    let Some((_, RpcBody::Report(result))) = gateway.serve(
        r#"{"id":4,"method":"tools/call","params":{"name":"fpsmaxxing.run_mock_lifecycle","arguments":{"value":42,"lease_seconds":30}}}"#,
    ) else {
        panic!("a lifecycle report was expected");
    };
    assert_eq!(
        result,
        Json::object()
            .with("provider_id", Json::text("mock"))
            .with("preview", Json::text("set mock.value from 0 to 42"))
            .with("verified", Json::Bool(true))
            .with("rolled_back", Json::Bool(true))
    );
    assert_eq!(
        gateway.stages,
        [
            "snapshot",
            "preview",
            "apply-intent",
            "apply",
            "verify",
            "rollback",
            "rollback-verify",
            "completed"
        ]
    );
}

#[test]
fn malformed_calls_are_told_apart() {
    let mut gateway = Gateway::new();
    let (code, message) = gateway.fault("{");
    assert_eq!(code, PARSE_ERROR);
    assert!(message.contains("EOF while parsing"), "{message}");
    assert_eq!(
        gateway.fault(r#"{"id":1,"method":"resources/list"}"#),
        (
            METHOD_NOT_FOUND,
            "unsupported MCP method: resources/list".to_owned()
        )
    );
    assert_eq!(
        gateway.fault(r#"{"id":1}"#),
        (INVALID_PARAMS, "missing MCP method".to_owned())
    );
    assert_eq!(
        gateway.fault(r#"{"id":1,"method":"tools/call"}"#),
        (INVALID_PARAMS, "missing tool name".to_owned())
    );
    assert_eq!(
        gateway.fault(r#"{"id":1,"method":"tools/call","params":{"name":"shell"}}"#),
        (INVALID_PARAMS, "unknown tool: shell".to_owned())
    );
    assert_eq!(
        gateway.fault(
            r#"{"id":1,"method":"tools/call","params":{"name":"fpsmaxxing.run_mock_lifecycle"}}"#
        ),
        (INVALID_PARAMS, "missing tool arguments".to_owned())
    );
    for (lease, why) in [
        ("0", "invalid value: integer `0`"),
        ("-1", "invalid value: integer `-1`"),
        ("1.5", "invalid type: floating point `1.5`"),
        ("0.0", "invalid type: floating point `0.0`"),
        ("-0.0", "invalid type: floating point `-0.0`"),
        ("\"30\"", "invalid type: string \"30\""),
        ("null", "invalid type: null"),
        ("true", "invalid type: boolean `true`"),
        ("[1,[2]]", "invalid type: sequence"),
        ("{\"a\":{}}", "invalid type: map"),
    ] {
        assert_eq!(
            gateway.fault(&format!(
                r#"{{"id":1,"method":"tools/call","params":{{"name":"fpsmaxxing.run_mock_lifecycle","arguments":{{"value":1,"lease_seconds":{lease}}}}}}}"#
            )),
            (
                INVALID_PARAMS,
                format!("invalid lifecycle arguments: {why}, expected a nonzero u64")
            )
        );
    }
    assert_eq!(
        gateway.fault(
            r#"{"id":1,"method":"tools/call","params":{"name":"fpsmaxxing.run_mock_lifecycle","arguments":{}}}"#
        )
        .1,
        "invalid lifecycle arguments: invalid type: null, expected a nonzero u64"
    );
    assert!(gateway.stages.is_empty());
}

#[test]
fn an_answer_is_carried_by_one_message() {
    let plain = || {
        Json::object()
            .with("jsonrpc", Json::text("2.0"))
            .with("id", Json::Unsigned(7))
    };
    assert_eq!(
        message(
            Json::Unsigned(7),
            RpcBody::Outcome(Json::Bool(true)),
            String::new()
        ),
        plain().with("result", Json::Bool(true))
    );
    assert_eq!(
        message(
            Json::Unsigned(7),
            RpcBody::Report(Json::Null),
            "null".to_owned()
        ),
        plain().with(
            "result",
            Json::object().with(
                "content",
                Json::Array(vec![Json::object()
                    .with("type", Json::text("text"))
                    .with("text", Json::text("null"))])
            )
        )
    );
    let fault = |code: i64| RpcBody::Fault {
        code,
        message: "no".to_owned(),
    };
    let carried = |code: Json| {
        plain().with(
            "error",
            Json::object()
                .with("code", code)
                .with("message", Json::text("no")),
        )
    };
    assert_eq!(
        message(Json::Unsigned(7), fault(PARSE_ERROR), String::new()),
        carried(Json::Negative(-32700))
    );
    assert_eq!(
        message(Json::Unsigned(7), fault(3), String::new()),
        carried(Json::Unsigned(3))
    );
}

#[test]
fn a_report_is_carried_only_by_text_that_reads_back() {
    let report = || {
        Json::object()
            .with("a", Json::Unsigned(1))
            .with("b", Json::Array(vec![Json::Negative(-2), Json::Null]))
    };
    assert!(carries_report(&report(), r#"{"b":[-2,null],"a":1}"#));
    assert!(!carries_report(&report(), r#"{"b":[-2,null],"a":2}"#));
    assert!(!carries_report(&report(), r#"{"b":[-2,null],"a":1"#));

    let id = || Json::text("x");
    let fault = |words: &str| {
        message(
            id(),
            RpcBody::Fault {
                code: INVALID_PARAMS,
                message: words.to_owned(),
            },
            String::new(),
        )
    };
    let text = r#"{"a":1,"b":[-2,null]}"#.to_owned();
    assert_eq!(
        deliver(id(), RpcBody::Report(report()), Ok(text.clone())),
        message(id(), RpcBody::Report(report()), text)
    );
    assert_eq!(
        deliver(id(), RpcBody::Report(report()), Ok("{}".to_owned())),
        fault(LOST_REPORT)
    );
    assert_eq!(
        deliver(id(), RpcBody::Report(report()), Err("no".to_owned())),
        fault("no")
    );
    assert_eq!(
        deliver(id(), RpcBody::Outcome(Json::Null), Err("no".to_owned())),
        message(id(), RpcBody::Outcome(Json::Null), String::new())
    );
}

#[test]
fn reports_are_written_in_their_own_order() {
    let mut gateway = Gateway::new();
    let names = |json: Json| match json {
        Json::Object(members) => members.into_iter().map(|member| member.0).collect(),
        _ => Vec::new(),
    };
    let Some((_, RpcBody::Report(manifest))) = gateway.serve(
        r#"{"id":3,"method":"tools/call","params":{"name":"fpsmaxxing.capabilities"}}"#,
    ) else {
        panic!("the catalog was expected");
    };
    assert_eq!(
        names(manifest),
        ["id", "protocol_version", "targets", "capabilities"]
    );
    let Some((_, RpcBody::Report(result))) = gateway.serve(
        r#"{"id":4,"method":"tools/call","params":{"name":"fpsmaxxing.run_mock_lifecycle","arguments":{"value":42,"lease_seconds":30}}}"#,
    ) else {
        panic!("a lifecycle report was expected");
    };
    assert_eq!(
        names(result),
        ["provider_id", "preview", "verified", "rolled_back"]
    );
}

#[test]
fn every_kind_of_id_comes_back() {
    let mut gateway = Gateway::new();
    for (text, id) in [
        ("-7", Json::Negative(-7)),
        ("\"a\\n\"", Json::text("a\n")),
        ("null", Json::Null),
        ("true", Json::Bool(true)),
        ("18446744073709551615", Json::Unsigned(u64::MAX)),
        (
            "[1,{\"b\":2}]",
            Json::Array(vec![
                Json::Unsigned(1),
                Json::object().with("b", Json::Unsigned(2)),
            ]),
        ),
    ] {
        let (found, _) = gateway
            .serve(&format!(r#"{{"id":{text},"method":"initialize"}}"#))
            .expect("an answer");
        assert_eq!(found, id);
    }
}

#[test]
fn the_journal_path_comes_from_flag_then_environment_then_default() {
    let args = |words: &[&str]| words.iter().map(|word| (*word).to_owned()).collect::<Vec<_>>();
    assert_eq!(
        journal_path(&args(&["--journal", "/a"]), Some("/b".to_owned())),
        "/a"
    );
    assert_eq!(
        journal_path(&args(&["--journal", "/a", "--journal", "/c"]), None),
        "/a"
    );
    assert_eq!(
        journal_path(&args(&["--journal"]), Some("/b".to_owned())),
        "/b"
    );
    assert_eq!(journal_path(&args(&[]), None), "fpsmaxxing-journal.sqlite");
}
