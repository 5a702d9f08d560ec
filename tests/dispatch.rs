use cairo_lang_language_server::api::{
    notification, notification_route_of, request, request_route_of, respond, RequestRoute,
};
use cairo_lang_language_server::client::{Client, Notifier, Requester, Responder, ResponseTask};
use cairo_lang_language_server::error::{ErrorCode, LSPError, LSPResultEx};
use cairo_lang_language_server::message::{
    Message, Notification, Request, RequestId, Response, ResponseError,
};
use cairo_lang_language_server::schedule::{
    BackgroundJob, BackgroundSchedule, LocalWork, NotificationKind, RequestKind, Task,
};
use lsp_types::notification::Notification as _;
use lsp_types::request::Request as _;
use serde_json::Value;

fn req(id: RequestId, method: &str, params: Value) -> Request {
    Request { id, method: method.to_string(), params }
}

fn decode_number(_k: RequestKind, v: Value) -> Result<u64, String> {
    v.as_u64().ok_or_else(|| "expected a number".to_string())
}

fn decode_note(_k: NotificationKind, v: Value) -> Result<u64, String> {
    v.as_u64().ok_or_else(|| "expected a number".to_string())
}

fn str_id(r: &RequestId) -> Option<&str> {
    match r {
        RequestId::Str(s) => Some(s.as_str()),
        RequestId::Int(_) => None,
    }
}

#[test]
fn request_table_uses_protocol_method_names() {
    let cases = [
        (lsp_types::request::CodeActionRequest::METHOD, RequestRoute::Background(RequestKind::CodeAction, BackgroundSchedule::LatencySensitive)),
        (lsp_types::request::Completion::METHOD, RequestRoute::Background(RequestKind::Completion, BackgroundSchedule::LatencySensitive)),
        (lsp_types::request::ExecuteCommand::METHOD, RequestRoute::Local(RequestKind::ExecuteCommand)),
        (lsp_types::request::Formatting::METHOD, RequestRoute::Background(RequestKind::Formatting, BackgroundSchedule::Fmt)),
        (lsp_types::request::GotoDefinition::METHOD, RequestRoute::Background(RequestKind::GotoDefinition, BackgroundSchedule::LatencySensitive)),
        (lsp_types::request::HoverRequest::METHOD, RequestRoute::Background(RequestKind::Hover, BackgroundSchedule::LatencySensitive)),
        (lsp_types::request::SemanticTokensFullRequest::METHOD, RequestRoute::Background(RequestKind::SemanticTokensFull, BackgroundSchedule::Worker)),
        ("cairo/expandMacro", RequestRoute::Background(RequestKind::ExpandMacro, BackgroundSchedule::Worker)),
        ("vfs/provide", RequestRoute::Background(RequestKind::ProvideVirtualFile, BackgroundSchedule::LatencySensitive)),
        ("cairo/viewAnalyzedCrates", RequestRoute::Background(RequestKind::ViewAnalyzedCrates, BackgroundSchedule::Worker)),
    ];
    for (method, route) in cases {
        assert_eq!(request_route_of(&method.to_string()), Some(route), "{method}");
    }
    assert_eq!(request_route_of(&"textDocument/Hover".to_string()), None);
    assert_eq!(request_route_of(&"".to_string()), None);
}

#[test]
fn notification_table_uses_protocol_method_names() {
    let cases = [
        (lsp_types::notification::Cancel::METHOD, NotificationKind::Cancel),
        (lsp_types::notification::DidChangeTextDocument::METHOD, NotificationKind::DidChangeTextDocument),
        (lsp_types::notification::DidChangeConfiguration::METHOD, NotificationKind::DidChangeConfiguration),
        (lsp_types::notification::DidChangeWatchedFiles::METHOD, NotificationKind::DidChangeWatchedFiles),
        (lsp_types::notification::DidCloseTextDocument::METHOD, NotificationKind::DidCloseTextDocument),
        (lsp_types::notification::DidOpenTextDocument::METHOD, NotificationKind::DidOpenTextDocument),
        (lsp_types::notification::DidSaveTextDocument::METHOD, NotificationKind::DidSaveTextDocument),
    ];
    for (method, kind) in cases {
        assert_eq!(notification_route_of(&method.to_string()), Some(kind), "{method}");
    }
    assert_eq!(notification_route_of(&"textDocument/didchange".to_string()), None);
}

#[test]
fn well_formed_background_request_is_answered_once_to_its_id() {
    let (sender, receiver) = crossbeam_channel::unbounded();
    let client: Client<()> = Client::new(sender);
    let task = request(
        req(RequestId::Str("r1".to_string()), "textDocument/semanticTokens/full", Value::from(7u64)),
        decode_number,
    );
    let work = match task {
        Task::Background { schedule, work } => {
            assert_eq!(schedule, BackgroundSchedule::Worker);
            work
        }
        _ => panic!("expected a background task"),
    };
    assert_eq!(work.kind, RequestKind::SemanticTokensFull);
    assert_eq!(work.params, 7);
    let job = BackgroundJob::new(BackgroundSchedule::Worker, work, vec![1, 2, 3]);
    let result = Value::from(job.work.params * 2 + job.snapshot.len() as u64);
    assert!(respond(job.work.id, Ok(result), &client.responder()).is_ok());
    let sent: Vec<Message> = receiver.try_iter().collect();
    assert_eq!(sent.len(), 1);
    match &sent[0] {
        Message::Response(Response { id, result: Some(v), error: None }) => {
            assert_eq!(str_id(id), Some("r1"));
            assert_eq!(v, &Value::from(17u64));
        }
        _ => panic!("expected one successful response"),
    }
}

#[test]
fn local_request_keeps_its_id() {
    let task = request(req(RequestId::Int(41), "workspace/executeCommand", Value::from(3u64)), decode_number);
    match task {
        Task::Local(LocalWork::Request(work)) => {
            assert_eq!(work.kind, RequestKind::ExecuteCommand);
            assert!(matches!(work.id, RequestId::Int(41)));
            assert_eq!(work.params, 3);
        }
        _ => panic!("expected a local request task"),
    }
}

#[test]
fn unknown_request_method_gives_no_task() {
    let mut called = false;
    let task = request(req(RequestId::Int(5), "textDocument/unknown", Value::Null), |_k, _v| {
        called = true;
        Ok::<u64, String>(1)
    });
    assert!(matches!(task, Task::Nothing));
    assert!(!called);
}

#[test]
fn malformed_hover_params_give_internal_error_response() {
    let task = request(
        req(RequestId::Str("r2".to_string()), "textDocument/hover", Value::String("oops".to_string())),
        decode_number,
    );
    let (id, result) = match task {
        Task::Immediate { id, result } => (id, result),
        _ => panic!("expected an immediate task"),
    };
    assert_eq!(str_id(&id), Some("r2"));
    let err = result.as_ref().err().expect("an error");
    assert_eq!(err.code, ErrorCode::InternalError);
    assert_eq!(err.message(), "JSON parsing failure:\nexpected a number");

    let (sender, receiver) = crossbeam_channel::unbounded();
    assert!(Responder::new(sender).respond(id, result).is_ok());
    match receiver.try_recv().unwrap() {
        Message::Response(Response { id, result: None, error: Some(ResponseError { code, message }) }) => {
            assert_eq!(str_id(&id), Some("r2"));
            assert_eq!(code, -32603);
            assert!(!message.is_empty());
        }
        _ => panic!("expected an error response"),
    }
    assert!(receiver.try_recv().is_err());
}

#[test]
fn notifications_route_locally_and_drop_failures() {
    let ok = notification(
        Notification { method: "textDocument/didOpen".to_string(), params: Value::from(9u64) },
        decode_note,
    );
    match ok {
        Task::Local(LocalWork::Notification(work)) => {
            assert_eq!(work.kind, NotificationKind::DidOpenTextDocument);
            assert_eq!(work.params, 9);
        }
        _ => panic!("expected a local notification task"),
    }
    let bad = notification(
        Notification { method: "textDocument/didSave".to_string(), params: Value::Null },
        decode_note,
    );
    assert!(matches!(bad, Task::Nothing));
    let unknown = notification(
        Notification { method: "custom/thing".to_string(), params: Value::from(1u64) },
        decode_note,
    );
    assert!(matches!(unknown, Task::Nothing));
}

#[test]
fn notify_on_closed_channel_returns_error() {
    let (sender, receiver) = crossbeam_channel::unbounded();
    drop(receiver);
    let notifier = Notifier::new(sender);
    match notifier.notify("window/logMessage".to_string(), Value::from(1u64)) {
        Err(Message::Notification(n)) => {
            assert_eq!(n.method, "window/logMessage");
            assert_eq!(n.params, Value::from(1u64));
        }
        _ => panic!("expected the notification back"),
    }
}

#[test]
fn notify_on_open_channel_sends() {
    let (sender, receiver) = crossbeam_channel::unbounded();
    let client: Client<()> = Client::new(sender);
    assert!(client.notifier().notify("a/b".to_string(), Value::Null).is_ok());
    match receiver.try_recv().unwrap() {
        Message::Notification(n) => assert_eq!(n.method, "a/b"),
        _ => panic!("expected a notification"),
    }
}

#[test]
fn outbound_request_ids_count_from_one() {
    let (sender, receiver) = crossbeam_channel::unbounded();
    let mut requester: Requester<&str> = Requester::new(sender);
    for h in ["a", "b", "c"] {
        assert!(requester.request("workspace/configuration".to_string(), Value::Null, h, false).is_ok());
    }
    let ids: Vec<i32> = receiver
        .try_iter()
        .map(|m| match m {
            Message::Request(Request { id: RequestId::Int(i), .. }) => i,
            _ => panic!("expected a request"),
        })
        .collect();
    assert_eq!(ids, vec![1, 2, 3]);
}

#[test]
fn failed_send_still_uses_up_the_id() {
    let (sender, receiver) = crossbeam_channel::unbounded();
    drop(receiver);
    let mut requester: Requester<u8> = Requester::new(sender);
    match requester.request("m".to_string(), Value::Null, 1, false) {
        Err(Message::Request(Request { id: RequestId::Int(1), .. })) => {}
        _ => panic!("expected request 1 back"),
    }
    match requester.request("m".to_string(), Value::Null, 2, false) {
        Err(Message::Request(Request { id: RequestId::Int(2), .. })) => {}
        _ => panic!("expected request 2 back"),
    }
}

fn response(id: RequestId, result: Option<Value>, error: Option<ResponseError>) -> Response {
    Response { id, result, error }
}

#[test]
fn response_without_handler_does_nothing() {
    let (sender, _receiver) = crossbeam_channel::unbounded();
    let mut requester: Requester<u8> = Requester::new(sender);
    let task = requester.pop_response_task(response(RequestId::Int(7), Some(Value::Null), None));
    assert!(matches!(task, ResponseTask::Nothing));
    let task = requester.pop_response_task(response(RequestId::Str("1".to_string()), Some(Value::Null), None));
    assert!(matches!(task, ResponseTask::Nothing));
}

#[test]
fn response_handler_is_consumed_once() {
    let (sender, _receiver) = crossbeam_channel::unbounded();
    let mut requester: Requester<u8> = Requester::new(sender);
    requester.request("m".to_string(), Value::Null, 10, false).unwrap();
    match requester.pop_response_task(response(RequestId::Int(1), Some(Value::from(4u64)), None)) {
        ResponseTask::Deliver { handler, result } => {
            assert_eq!(handler, 10);
            assert_eq!(result, Value::from(4u64));
        }
        _ => panic!("expected delivery"),
    }
    let again = requester.pop_response_task(response(RequestId::Int(1), Some(Value::from(4u64)), None));
    assert!(matches!(again, ResponseTask::Nothing));
}

#[test]
fn response_error_and_empty_results() {
    let (sender, _receiver) = crossbeam_channel::unbounded();
    let mut requester: Requester<u8> = Requester::new(sender);
    requester.request("m".to_string(), Value::Null, 1, false).unwrap();
    requester.request("m".to_string(), Value::Null, 2, true).unwrap();
    requester.request("m".to_string(), Value::Null, 3, false).unwrap();
    let err = ResponseError { code: -32603, message: "boom".to_string() };
    assert!(matches!(
        requester.pop_response_task(response(RequestId::Int(1), Some(Value::Null), Some(err))),
        ResponseTask::Nothing
    ));
    assert!(matches!(
        requester.pop_response_task(response(RequestId::Int(2), None, None)),
        ResponseTask::DeliverUnit { handler: 2 }
    ));
    assert!(matches!(
        requester.pop_response_task(response(RequestId::Int(3), None, None)),
        ResponseTask::Nothing
    ));
}

#[test]
fn snapshot_is_not_touched_by_later_state_changes() {
    let mut state = vec![1, 2, 3];
    let task = request(req(RequestId::Int(1), "textDocument/hover", Value::from(0u64)), decode_number);
    let (schedule, work) = match task {
        Task::Background { schedule, work } => (schedule, work),
        _ => panic!("expected a background task"),
    };
    let job = BackgroundJob::new(schedule, work, state.clone());
    state.push(4);
    state[0] = 100;
    assert_eq!(job.snapshot, vec![1, 2, 3]);
    assert_eq!(job.schedule, BackgroundSchedule::LatencySensitive);
}

#[test]
fn error_codes_and_messages() {
    assert_eq!(ErrorCode::InternalError.value(), -32603);
    assert_eq!(ErrorCode::ParseError.value(), -32700);
    assert_eq!(ErrorCode::MethodNotFound.value(), -32601);
    assert_eq!(ErrorCode::RequestFailed.value(), -32803);
    assert_eq!(ErrorCode::InternalError.value(), lsp_server::ErrorCode::InternalError as i32);
    assert_eq!(ErrorCode::ContentModified.value(), lsp_server::ErrorCode::ContentModified as i32);
    let e = LSPError::new("cause only".to_string(), ErrorCode::InvalidParams);
    assert_eq!(e.message(), "cause only");
    let r: Result<u8, String> = Err("bad".to_string());
    let mapped = r.with_failure_code(ErrorCode::RequestFailed);
    let e = mapped.err().unwrap();
    assert_eq!(e.code, ErrorCode::RequestFailed);
    assert_eq!(e.error, "bad");
    let ok: Result<u8, String> = Ok(3);
    assert_eq!(ok.with_failure_code(ErrorCode::InternalError).ok(), Some(3));
}

#[test]
fn respond_with_error_uses_code_and_cause() {
    let (sender, receiver) = crossbeam_channel::unbounded();
    let responder = Responder::new(sender);
    let e = LSPError::new("no such file".to_string(), ErrorCode::RequestFailed);
    responder.respond(RequestId::Int(3), Err(e)).unwrap();
    match receiver.try_recv().unwrap() {
        Message::Response(Response { id: RequestId::Int(3), result: None, error: Some(err) }) => {
            assert_eq!(err.code, -32803);
            assert_eq!(err.message, "no such file");
        }
        _ => panic!("expected an error response"),
    }
}

#[test]
fn run_request_answers_with_the_handler_outcome() {
    let (sender, receiver) = crossbeam_channel::unbounded();
    let responder = Responder::new(sender);
    let task = request(req(RequestId::Str("x1".to_string()), "textDocument/completion", Value::from(20u64)), decode_number);
    let work = match task {
        Task::Background { work, .. } => work,
        _ => panic!("expected a background task"),
    };
    let sent = cairo_lang_language_server::api::run_request(
        work,
        |kind, params| {
            assert_eq!(kind, RequestKind::Completion);
            Ok(Value::from(params + 1))
        },
        &responder,
    );
    assert!(sent.is_ok());
    let all: Vec<Message> = receiver.try_iter().collect();
    assert_eq!(all.len(), 1);
    match &all[0] {
        Message::Response(Response { id, result: Some(v), error: None }) => {
            assert_eq!(str_id(id), Some("x1"));
            assert_eq!(v, &Value::from(21u64));
        }
        _ => panic!("expected one response"),
    }
}
