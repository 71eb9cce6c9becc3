use nixops4_resource_runner::{
    create_request_line, decode_exec_input, decode_file_input, decode_request, decode_response,
    encode_response_line, exec_outcome, exec_output, file_output, lookup, on_exit, on_read,
    parse_request_line, parse_response_line, plan_request, select_handler, ExitReport, Field,
    FieldProblem, InputField, Json, Pending, Plan, ProviderError, ReadDecision, ReadOutcome,
    ResourceKind, ResourceProviderClient, ResourceProviderConfig, Violation,
};

fn s(x: &str) -> String {
    x.to_string()
}

fn prop(k: &str, v: Json) -> (String, Json) {
    (s(k), v)
}

fn text(x: &str) -> Json {
    Json::Str(s(x))
}

fn file_props() -> Vec<(String, Json)> {
    vec![prop("name", text("out.txt")), prop("contents", text("hi"))]
}

fn failed(status: &str) -> ExitReport {
    ExitReport { success: false, status: s(status) }
}

fn succeeded() -> ExitReport {
    ExitReport { success: true, status: s("exit status: 0") }
}

#[test]
fn new_keeps_config() {
    let c = ResourceProviderClient::new(ResourceProviderConfig {
        provider_executable: s("/bin/provider"),
        provider_args: vec![s("--flag")],
    });
    assert_eq!(c.provider_config().provider_executable, "/bin/provider");
    assert_eq!(c.provider_config().provider_args, vec![s("--flag")]);
}

#[test]
fn request_line_is_one_compact_line() {
    let line = create_request_line("file", file_props());
    assert_eq!(
        line,
        "{\"inputProperties\":{\"contents\":\"hi\",\"name\":\"out.txt\"},\"type\":\"file\"}\n"
    );
}

#[test]
fn request_line_escapes_line_breaks() {
    let line = create_request_line("exec", vec![prop("stdin", text("a\nb"))]);
    assert!(line.ends_with('\n'));
    assert_eq!(line.matches('\n').count(), 1);
}

#[test]
fn request_line_decodes_back() {
    let c = ResourceProviderClient::new(ResourceProviderConfig {
        provider_executable: s("p"),
        provider_args: vec![],
    });
    let line = c.request_line("file", file_props());
    let (t, props) = parse_request_line(&line).unwrap();
    assert_eq!(t, "file");
    let mut expected = file_props();
    expected.reverse();
    assert_eq!(props, expected);
}

#[test]
fn response_line_decodes() {
    let r = parse_response_line("{\"outputProperties\":{\"stdout\":\"hello\\n\"}}\n");
    assert_eq!(r, Ok(vec![prop("stdout", text("hello\n"))]));
}

#[test]
fn response_not_json_is_malformed() {
    assert!(matches!(parse_response_line("not json"), Err(Violation::Malformed(_))));
}

#[test]
fn response_shape_violations() {
    assert_eq!(parse_response_line("[1]"), Err(Violation::NotAnObject));
    assert_eq!(
        parse_response_line("{}"),
        Err(Violation::MissingField(Field::OutputProperties))
    );
    assert_eq!(
        parse_response_line("{\"outputProperties\":3}"),
        Err(Violation::WrongType(Field::OutputProperties))
    );
}

#[test]
fn decode_response_takes_first_member() {
    let doc = Json::Object(vec![
        prop("outputProperties", Json::Object(vec![prop("a", text("1"))])),
        prop("outputProperties", Json::Null),
    ]);
    assert_eq!(decode_response(doc), Ok(vec![prop("a", text("1"))]));
}

#[test]
fn decode_request_shape_violations() {
    assert_eq!(decode_request(Json::Null), Err(Violation::NotAnObject));
    assert_eq!(
        decode_request(Json::Object(vec![])),
        Err(Violation::MissingField(Field::Type))
    );
    assert_eq!(
        decode_request(Json::Object(vec![prop("type", Json::Bool(true))])),
        Err(Violation::WrongType(Field::Type))
    );
    assert_eq!(
        decode_request(Json::Object(vec![prop("type", text("file"))])),
        Err(Violation::MissingField(Field::InputProperties))
    );
    assert_eq!(
        decode_request(Json::Object(vec![
            prop("inputProperties", Json::Array(vec![])),
            prop("type", text("file")),
        ])),
        Err(Violation::WrongType(Field::InputProperties))
    );
}

#[test]
fn lookup_finds_first_of_equal_keys() {
    let m = vec![prop("a", text("1")), prop("b", text("2")), prop("b", text("3"))];
    assert_eq!(lookup(&m, "b"), Some(1));
    assert_eq!(lookup(&m, "c"), None);
}

#[test]
fn read_failure_fails_at_once() {
    assert_eq!(
        on_read(ReadOutcome::Failed(s("broken pipe"))),
        ReadDecision::Fail(ProviderError::TransportReadFailure { message: s("broken pipe") })
    );
}

#[test]
fn end_of_input_waits_for_exit() {
    assert_eq!(on_read(ReadOutcome::Eof), ReadDecision::Wait(Pending::NoOutput));
}

#[test]
fn valid_response_waits_for_exit() {
    let d = on_read(ReadOutcome::Line(s("{\"outputProperties\":{}}\n")));
    assert_eq!(d, ReadDecision::Wait(Pending::Response(vec![])));
}

#[test]
fn exit_failure_overrides_parsed_response() {
    let d = on_read(ReadOutcome::Line(s("{\"outputProperties\":{\"x\":\"y\"}}\n")));
    let p = match d {
        ReadDecision::Wait(p) => p,
        other => panic!("unexpected {:?}", other),
    };
    assert_eq!(
        on_exit(p, failed("exit status: 3")),
        Err(ProviderError::ProviderExitFailure { status: s("exit status: 3") })
    );
}

#[test]
fn silent_success_is_protocol_violation() {
    assert_eq!(
        on_exit(Pending::NoOutput, succeeded()),
        Err(ProviderError::ProtocolViolation(Violation::NoOutput))
    );
}

#[test]
fn silent_failure_reports_exit_status() {
    assert_eq!(
        on_exit(Pending::NoOutput, failed("exit status: 1")),
        Err(ProviderError::ProviderExitFailure { status: s("exit status: 1") })
    );
}

#[test]
fn response_and_success_give_outputs() {
    assert_eq!(
        on_exit(Pending::Response(vec![prop("k", text("v"))]), succeeded()),
        Ok(vec![prop("k", text("v"))])
    );
}

#[test]
fn malformed_response_is_decode_error() {
    let d = on_read(ReadOutcome::Line(s("{\"outputProperties\":")));
    assert!(matches!(
        d,
        ReadDecision::Fail(ProviderError::ProtocolViolation(Violation::Malformed(_)))
    ));
}

#[test]
fn unknown_type_is_refused_before_any_work() {
    let r = plan_request("{\"type\":\"bucket\",\"inputProperties\":{\"name\":\"x\"}}");
    assert_eq!(r, Err(ProviderError::UnknownResourceType(s("bucket"))));
    assert_eq!(select_handler(s("file")), Ok(ResourceKind::File));
    assert_eq!(select_handler(s("exec")), Ok(ResourceKind::Exec));
}

#[test]
fn file_request_plans_write_and_empty_output() {
    let r = plan_request("{\"type\":\"file\",\"inputProperties\":{\"name\":\"out.txt\",\"contents\":\"hi\"}}\n");
    assert_eq!(
        r,
        Ok(Plan::WriteFile(nixops4_resource_runner::FileInput {
            name: s("out.txt"),
            contents: s("hi"),
        }))
    );
    assert_eq!(file_output(), vec![]);
    assert_eq!(encode_response_line(file_output()), "{\"outputProperties\":{}}\n");
}

#[test]
fn exec_request_without_stdin() {
    let r = plan_request(
        "{\"type\":\"exec\",\"inputProperties\":{\"executable\":\"echo\",\"args\":[\"hello\"],\"stdin\":null}}",
    );
    assert_eq!(
        r,
        Ok(Plan::Exec(nixops4_resource_runner::ExecInput {
            executable: s("echo"),
            args: vec![s("hello")],
            stdin: None,
        }))
    );
    let out = exec_outcome(Ok(s("hello\n")), true, s("exit status: 0")).unwrap();
    assert_eq!(out, vec![prop("stdout", text("hello\n"))]);
    assert_eq!(
        encode_response_line(out),
        "{\"outputProperties\":{\"stdout\":\"hello\\n\"}}\n"
    );
}

#[test]
fn exec_request_with_stdin() {
    let r = plan_request(
        "{\"type\":\"exec\",\"inputProperties\":{\"executable\":\"cat\",\"args\":[],\"stdin\":\"ping\"}}",
    );
    assert_eq!(
        r,
        Ok(Plan::Exec(nixops4_resource_runner::ExecInput {
            executable: s("cat"),
            args: vec![],
            stdin: Some(s("ping")),
        }))
    );
    assert_eq!(
        exec_outcome(Ok(s("ping")), true, s("exit status: 0")),
        Ok(exec_output(s("ping")))
    );
    assert_eq!(exec_output(s("ping")), vec![prop("stdout", text("ping"))]);
}

#[test]
fn exec_failures() {
    assert_eq!(
        exec_outcome(Ok(s("")), false, s("exit status: 2")),
        Err(ProviderError::HandlerFailure { message: s("exit status: 2") })
    );
    assert_eq!(
        exec_outcome(Err(s("invalid utf-8")), true, s("exit status: 0")),
        Err(ProviderError::HandlerFailure { message: s("invalid utf-8") })
    );
}

#[test]
fn file_input_validation() {
    assert_eq!(decode_file_input(&file_props()).map(|x| x.name), Ok(s("out.txt")));
    assert_eq!(
        decode_file_input(&vec![prop("name", text("a"))]).map(|x| x.name),
        Err(ProviderError::InputValidationFailure {
            kind: ResourceKind::File,
            field: InputField::Contents,
            problem: FieldProblem::Missing,
        })
    );
    assert_eq!(
        decode_file_input(&vec![prop("name", Json::Null), prop("contents", text("c"))])
            .map(|x| x.name),
        Err(ProviderError::InputValidationFailure {
            kind: ResourceKind::File,
            field: InputField::Name,
            problem: FieldProblem::WrongType,
        })
    );
}

#[test]
fn exec_input_validation() {
    let err = |field, problem| ProviderError::InputValidationFailure {
        kind: ResourceKind::Exec,
        field,
        problem,
    };
    let exe = || prop("executable", text("e"));
    assert_eq!(
        decode_exec_input(&vec![]).map(|x| x.executable),
        Err(err(InputField::Executable, FieldProblem::Missing))
    );
    assert_eq!(
        decode_exec_input(&vec![exe()]).map(|x| x.executable),
        Err(err(InputField::Args, FieldProblem::Missing))
    );
    assert_eq!(
        decode_exec_input(&vec![exe(), prop("args", Json::Array(vec![text("a"), Json::Null]))])
            .map(|x| x.executable),
        Err(err(InputField::Args, FieldProblem::WrongType))
    );
    assert_eq!(
        decode_exec_input(&vec![exe(), prop("args", Json::Array(vec![])), prop("stdin", Json::Bool(false))])
            .map(|x| x.executable),
        Err(err(InputField::Stdin, FieldProblem::WrongType))
    );
    let ok = decode_exec_input(&vec![exe(), prop("args", Json::Array(vec![text("a")]))]).unwrap();
    assert_eq!(ok.stdin, None);
    assert_eq!(ok.args, vec![s("a")]);
}

#[test]
fn numbers_pass_through() {
    let line = create_request_line(
        "exec",
        vec![prop("n", Json::Number(serde_json::Number::from(42u64)))],
    );
    assert_eq!(line, "{\"inputProperties\":{\"n\":42},\"type\":\"exec\"}\n");
}

#[test]
fn independent_operations_do_not_interfere() {
    let a = on_read(ReadOutcome::Line(s("{\"outputProperties\":{\"id\":\"a\"}}")));
    let b = on_read(ReadOutcome::Eof);
    let rb = match b {
        ReadDecision::Wait(p) => on_exit(p, failed("exit status: 9")),
        other => panic!("unexpected {:?}", other),
    };
    let ra = match a {
        ReadDecision::Wait(p) => on_exit(p, succeeded()),
        other => panic!("unexpected {:?}", other),
    };
    assert_eq!(ra, Ok(vec![prop("id", text("a"))]));
    assert_eq!(rb, Err(ProviderError::ProviderExitFailure { status: s("exit status: 9") }));
}
