//! The router: from an inbound message's method name to a task.
use vstd::prelude::*;
use crate::client::{spec_response_for, Responder};
use crate::error::{ErrorCode, LSPError};
use crate::message::{Message, Notification, Request, RequestId};
use crate::schedule::{
    BackgroundSchedule, LocalWork, NotificationKind, NotificationWork, RequestKind, RequestWork,
    Task,
};

verus! {

/// How a known request method runs.
#[derive(Clone, Copy, Debug, PartialEq, Eq, Structural)]
pub enum RequestRoute {
    /// On the session context, with access to the live state.
    Local(RequestKind),
    /// Against a snapshot, on the lane of the schedule.
    Background(RequestKind, BackgroundSchedule),
}

impl RequestRoute {
    pub open spec fn spec_kind(self) -> RequestKind {
        match self {
            RequestRoute::Local(k) => k,
            RequestRoute::Background(k, _) => k,
        }
    }

    pub fn kind(&self) -> (r: RequestKind)
        ensures
            r == self.spec_kind(),
    {
        match self {
            RequestRoute::Local(k) => *k,
            RequestRoute::Background(k, _) => *k,
        }
    }
}

/// The table of request methods: exact, case-sensitive names.
pub open spec fn request_route(method: Seq<char>) -> Option<RequestRoute> {
    if method == "textDocument/codeAction"@ {
        Some(RequestRoute::Background(RequestKind::CodeAction, BackgroundSchedule::LatencySensitive))
    } else if method == "textDocument/completion"@ {
        Some(RequestRoute::Background(RequestKind::Completion, BackgroundSchedule::LatencySensitive))
    } else if method == "workspace/executeCommand"@ {
        Some(RequestRoute::Local(RequestKind::ExecuteCommand))
    } else if method == "cairo/expandMacro"@ {
        Some(RequestRoute::Background(RequestKind::ExpandMacro, BackgroundSchedule::Worker))
    } else if method == "textDocument/formatting"@ {
        Some(RequestRoute::Background(RequestKind::Formatting, BackgroundSchedule::Fmt))
    } else if method == "textDocument/definition"@ {
        Some(
            RequestRoute::Background(
                RequestKind::GotoDefinition,
                BackgroundSchedule::LatencySensitive,
            ),
        )
    } else if method == "textDocument/hover"@ {
        Some(RequestRoute::Background(RequestKind::Hover, BackgroundSchedule::LatencySensitive))
    } else if method == "vfs/provide"@ {
        Some(
            RequestRoute::Background(
                RequestKind::ProvideVirtualFile,
                BackgroundSchedule::LatencySensitive,
            ),
        )
    } else if method == "textDocument/semanticTokens/full"@ {
        Some(RequestRoute::Background(RequestKind::SemanticTokensFull, BackgroundSchedule::Worker))
    } else if method == "cairo/viewAnalyzedCrates"@ {
        Some(RequestRoute::Background(RequestKind::ViewAnalyzedCrates, BackgroundSchedule::Worker))
    } else {
        None
    }
}

/// The table of notification methods; every notification runs locally.
pub open spec fn notification_route(method: Seq<char>) -> Option<NotificationKind> {
    if method == "$/cancelRequest"@ {
        Some(NotificationKind::Cancel)
    } else if method == "textDocument/didChange"@ {
        Some(NotificationKind::DidChangeTextDocument)
    } else if method == "workspace/didChangeConfiguration"@ {
        Some(NotificationKind::DidChangeConfiguration)
    } else if method == "workspace/didChangeWatchedFiles"@ {
        Some(NotificationKind::DidChangeWatchedFiles)
    } else if method == "textDocument/didClose"@ {
        Some(NotificationKind::DidCloseTextDocument)
    } else if method == "textDocument/didOpen"@ {
        Some(NotificationKind::DidOpenTextDocument)
    } else if method == "textDocument/didSave"@ {
        Some(NotificationKind::DidSaveTextDocument)
    } else {
        None
    }
}

fn method_is(method: &String, name: &str) -> (r: bool)
    ensures
        r == (method@ == name@),
{
    *method == name.to_owned()
}

/// Looks a request method up in the table.
pub fn request_route_of(method: &String) -> (r: Option<RequestRoute>)
    ensures
        r == request_route(method@),
{
    if method_is(method, "textDocument/codeAction") {
        Some(RequestRoute::Background(RequestKind::CodeAction, BackgroundSchedule::LatencySensitive))
    } else if method_is(method, "textDocument/completion") {
        Some(RequestRoute::Background(RequestKind::Completion, BackgroundSchedule::LatencySensitive))
    } else if method_is(method, "workspace/executeCommand") {
        Some(RequestRoute::Local(RequestKind::ExecuteCommand))
    } else if method_is(method, "cairo/expandMacro") {
        Some(RequestRoute::Background(RequestKind::ExpandMacro, BackgroundSchedule::Worker))
    } else if method_is(method, "textDocument/formatting") {
        Some(RequestRoute::Background(RequestKind::Formatting, BackgroundSchedule::Fmt))
    } else if method_is(method, "textDocument/definition") {
        Some(
            RequestRoute::Background(
                RequestKind::GotoDefinition,
                BackgroundSchedule::LatencySensitive,
            ),
        )
    } else if method_is(method, "textDocument/hover") {
        Some(RequestRoute::Background(RequestKind::Hover, BackgroundSchedule::LatencySensitive))
    } else if method_is(method, "vfs/provide") {
        Some(
            RequestRoute::Background(
                RequestKind::ProvideVirtualFile,
                BackgroundSchedule::LatencySensitive,
            ),
        )
    } else if method_is(method, "textDocument/semanticTokens/full") {
        Some(RequestRoute::Background(RequestKind::SemanticTokensFull, BackgroundSchedule::Worker))
    } else if method_is(method, "cairo/viewAnalyzedCrates") {
        Some(RequestRoute::Background(RequestKind::ViewAnalyzedCrates, BackgroundSchedule::Worker))
    } else {
        None
    }
}

/// Looks a notification method up in the table.
pub fn notification_route_of(method: &String) -> (r: Option<NotificationKind>)
    ensures
        r == notification_route(method@),
{
    if method_is(method, "$/cancelRequest") {
        Some(NotificationKind::Cancel)
    } else if method_is(method, "textDocument/didChange") {
        Some(NotificationKind::DidChangeTextDocument)
    } else if method_is(method, "workspace/didChangeConfiguration") {
        Some(NotificationKind::DidChangeConfiguration)
    } else if method_is(method, "workspace/didChangeWatchedFiles") {
        Some(NotificationKind::DidChangeWatchedFiles)
    } else if method_is(method, "textDocument/didClose") {
        Some(NotificationKind::DidCloseTextDocument)
    } else if method_is(method, "textDocument/didOpen") {
        Some(NotificationKind::DidOpenTextDocument)
    } else if method_is(method, "textDocument/didSave") {
        Some(NotificationKind::DidSaveTextDocument)
    } else {
        None
    }
}

/// The message of the error raised where parameters fail to decode.
pub open spec fn decode_failure_message(cause: Seq<char>) -> Seq<char> {
    "JSON parsing failure:\n"@ + cause
}

/// `e` is the internal error for parameters that failed to decode with `cause`.
pub open spec fn is_decode_error(e: LSPError, cause: String) -> bool {
    &&& e.code == ErrorCode::InternalError
    &&& e.error@ == decode_failure_message(cause@)
}

/// The outcome of decoding, with the decoder's failure turned into an
/// internal error.
pub open spec fn casts<T, P>(decoded: Result<P, String>, ok: T, r: Result<(T, P), LSPError>) -> bool {
    match decoded {
        Ok(p) => r == Ok::<(T, P), LSPError>((ok, p)),
        Err(cause) => r matches Err(e) && is_decode_error(e, cause),
    }
}

/// The task that runs the handler of `route` on decoded parameters.
pub open spec fn task_for<P>(route: RequestRoute, id: RequestId, params: P) -> Task<P> {
    match route {
        RequestRoute::Local(kind) => Task::Local(
            LocalWork::Request(RequestWork { kind, id, params }),
        ),
        RequestRoute::Background(kind, schedule) => Task::Background {
            schedule,
            work: RequestWork { kind, id, params },
        },
    }
}

/// What building the task of `route` gives, for what decoding gave.
pub open spec fn builds_request_task<P>(
    route: RequestRoute,
    id: RequestId,
    decoded: Result<P, String>,
    r: Result<Task<P>, LSPError>,
) -> bool {
    match decoded {
        Ok(p) => r == Ok::<Task<P>, LSPError>(task_for(route, id, p)),
        Err(cause) => r matches Err(e) && is_decode_error(e, cause),
    }
}

/// The task built for a request of a known method, given what decoding its
/// parameters gave.
pub open spec fn routes_request<P>(
    route: RequestRoute,
    id: RequestId,
    decoded: Result<P, String>,
    task: Task<P>,
) -> bool {
    match decoded {
        Ok(p) => task == task_for(route, id, p),
        Err(cause) => task matches Task::Immediate { id: i, result: Err(e) } && i == id
            && is_decode_error(e, cause),
    }
}

fn decode_error(cause: String) -> (e: LSPError)
    ensures
        is_decode_error(e, cause),
{
    let message = "JSON parsing failure:\n".to_owned().concat(cause.as_str());
    LSPError::new(message, ErrorCode::InternalError)
}

/// Decodes a request's parameters for the handler `kind`.
fn cast_request<P, F: FnOnce(RequestKind, serde_json::Value) -> Result<P, String>>(
    request: Request,
    kind: RequestKind,
    decode: F,
) -> (r: Result<(RequestId, P), LSPError>)
    requires
        decode.requires((kind, request.params)),
    ensures
        exists|d: Result<P, String>|
            decode.ensures((kind, request.params), d) && casts(d, request.id, r),
{
    let Request { id, method: _, params } = request;
    let decoded = decode(kind, params);
    let ghost d = decoded;
    let r = match decoded {
        Ok(p) => Ok((id, p)),
        Err(cause) => Err(decode_error(cause)),
    };
    assert(decode.ensures((kind, request.params), d) && casts(d, request.id, r));
    r
}

/// Builds the task of a request that runs on the session context.
fn local_request_task<P, F: FnOnce(RequestKind, serde_json::Value) -> Result<P, String>>(
    request: Request,
    kind: RequestKind,
    decode: F,
) -> (r: Result<Task<P>, LSPError>)
    requires
        decode.requires((kind, request.params)),
    ensures
        exists|d: Result<P, String>|
            decode.ensures((kind, request.params), d) && builds_request_task(
                RequestRoute::Local(kind),
                request.id,
                d,
                r,
            ),
{
    let ghost request_params = request.params;
    let ghost request_id = request.id;
    let cast = cast_request(request, kind, decode);
    let ghost d = choose|d: Result<P, String>|
        decode.ensures((kind, request_params), d) && casts(d, request_id, cast);
    let r = match cast {
        Ok((id, params)) => Ok(Task::Local(LocalWork::Request(RequestWork { kind, id, params }))),
        Err(e) => Err(e),
    };
    assert(decode.ensures((kind, request_params), d) && builds_request_task(
        RequestRoute::Local(kind),
        request_id,
        d,
        r,
    ));
    r
}

/// Builds the task of a request that runs against a snapshot on the lane of
/// `schedule`.
fn background_request_task<P, F: FnOnce(RequestKind, serde_json::Value) -> Result<P, String>>(
    request: Request,
    kind: RequestKind,
    schedule: BackgroundSchedule,
    decode: F,
) -> (r: Result<Task<P>, LSPError>)
    requires
        decode.requires((kind, request.params)),
    ensures
        exists|d: Result<P, String>|
            decode.ensures((kind, request.params), d) && builds_request_task(
                RequestRoute::Background(kind, schedule),
                request.id,
                d,
                r,
            ),
{
    let ghost request_params = request.params;
    let ghost request_id = request.id;
    let cast = cast_request(request, kind, decode);
    let ghost d = choose|d: Result<P, String>|
        decode.ensures((kind, request_params), d) && casts(d, request_id, cast);
    let r = match cast {
        Ok((id, params)) => Ok(Task::Background { schedule, work: RequestWork { kind, id, params } }),
        Err(e) => Err(e),
    };
    assert(decode.ensures((kind, request_params), d) && builds_request_task(
        RequestRoute::Background(kind, schedule),
        request_id,
        d,
        r,
    ));
    r
}

/// Routes an inbound request. An unknown method gives no task and no
/// response; parameters that fail to decode give an immediate internal-error
/// response to the request's id; otherwise the handler's task, local or on
/// its lane, carrying the request's id.
pub fn request<P, F: FnOnce(RequestKind, serde_json::Value) -> Result<P, String>>(
    msg: Request,
    decode: F,
) -> (r: Task<P>)
    requires
        forall|k: RequestKind, v: serde_json::Value| decode.requires((k, v)),
    ensures
        match request_route(msg.method@) {
            None => r is Nothing,
            Some(route) => exists|d: Result<P, String>|
                decode.ensures((route.spec_kind(), msg.params), d) && routes_request(
                    route,
                    msg.id,
                    d,
                    r,
                ),
        },
{
    let id = msg.id.duplicate();
    let ghost params = msg.params;
    let ghost msg_id = msg.id;
    let route = match request_route_of(&msg.method) {
        None => {
            return Task::nothing();
        },
        Some(route) => route,
    };
    let built = match route {
        RequestRoute::Local(kind) => local_request_task(msg, kind, decode),
        RequestRoute::Background(kind, schedule) => background_request_task(
            msg,
            kind,
            schedule,
            decode,
        ),
    };
    let ghost d = choose|d: Result<P, String>|
        decode.ensures((route.spec_kind(), params), d) && builds_request_task(
            route,
            msg_id,
            d,
            built,
        );
    let r = match built {
        Ok(task) => task,
        Err(error) => Task::immediate(id, Err(error)),
    };
    assert(decode.ensures((route.spec_kind(), params), d) && routes_request(route, msg_id, d, r));
    r
}

/// Decodes a notification's parameters for the handler `kind`.
fn cast_notification<P, F: FnOnce(NotificationKind, serde_json::Value) -> Result<P, String>>(
    notification: Notification,
    kind: NotificationKind,
    decode: F,
) -> (r: Result<(NotificationKind, P), LSPError>)
    requires
        decode.requires((kind, notification.params)),
    ensures
        exists|d: Result<P, String>|
            decode.ensures((kind, notification.params), d) && casts(d, kind, r),
{
    let Notification { method: _, params } = notification;
    let decoded = decode(kind, params);
    let ghost d = decoded;
    let r = match decoded {
        Ok(p) => Ok((kind, p)),
        Err(cause) => Err(decode_error(cause)),
    };
    assert(decode.ensures((kind, notification.params), d) && casts(d, kind, r));
    r
}

/// Builds the task of a notification; notifications always run locally.
fn local_notification_task<
    P,
    F: FnOnce(NotificationKind, serde_json::Value) -> Result<P, String>,
>(notification: Notification, kind: NotificationKind, decode: F) -> (r: Result<Task<P>, LSPError>)
    requires
        decode.requires((kind, notification.params)),
    ensures
        exists|d: Result<P, String>|
            decode.ensures((kind, notification.params), d) && match d {
                Ok(p) => r == Ok::<Task<P>, LSPError>(
                    Task::Local(LocalWork::Notification(NotificationWork { kind, params: p })),
                ),
                Err(cause) => r matches Err(e) && is_decode_error(e, cause),
            },
{
    match cast_notification(notification, kind, decode) {
        Ok((kind, params)) => Ok(Task::Local(LocalWork::Notification(NotificationWork { kind, params }))),
        Err(e) => Err(e),
    }
}

/// Routes an inbound notification. An unknown method, or parameters that
/// fail to decode, give no task: a notification has no response to carry an
/// error.
pub fn notification<P, F: FnOnce(NotificationKind, serde_json::Value) -> Result<P, String>>(
    msg: Notification,
    decode: F,
) -> (r: Task<P>)
    requires
        forall|k: NotificationKind, v: serde_json::Value| decode.requires((k, v)),
    ensures
        match notification_route(msg.method@) {
            None => r is Nothing,
            Some(kind) => exists|d: Result<P, String>|
                decode.ensures((kind, msg.params), d) && match d {
                    Ok(p) => r == Task::Local(
                        LocalWork::Notification(NotificationWork { kind, params: p }),
                    ),
                    Err(_) => r is Nothing,
                },
        },
{
    match notification_route_of(&msg.method) {
        None => Task::nothing(),
        Some(kind) => match local_notification_task(msg, kind, decode) {
            Ok(task) => task,
            Err(_) => Task::nothing(),
        },
    }
}

/// Sends the outcome of a request's handler as the one response to `id`.
pub fn respond(id: RequestId, result: Result<serde_json::Value, LSPError>, responder: &Responder) -> (r: Result<(), Message>)
    ensures
        r matches Err(back) ==> back == Message::Response(spec_response_for(id, result)),
{
    responder.respond(id, result)
}

/// Runs a request's handler on its parameters and sends the outcome as the one
/// response to the request's id. A closed channel is reported to the caller,
/// with the response that could not go out.
pub fn run_request<P, F: FnOnce(RequestKind, P) -> Result<serde_json::Value, LSPError>>(
    work: RequestWork<P>,
    handler: F,
    responder: &Responder,
) -> (r: Result<(), Message>)
    requires
        handler.requires((work.kind, work.params)),
    ensures
        exists|outcome: Result<serde_json::Value, LSPError>|
            handler.ensures((work.kind, work.params), outcome) && (r matches Err(back) ==> back
                == Message::Response(spec_response_for(work.id, outcome))),
{
    let RequestWork { kind, id, params } = work;
    let outcome = handler(kind, params);
    let ghost o = outcome;
    let r = respond(id, outcome, responder);
    assert(handler.ensures((work.kind, work.params), o));
    r
}

/// A request of a registered method whose parameters decode is answered to
/// its own id: its task carries the id, and completing the task with any
/// outcome builds the response to that id.
pub proof fn lemma_registered_request_answers_its_id<P>(
    method: Seq<char>,
    id: RequestId,
    params: P,
    task: Task<P>,
    outcome: Result<serde_json::Value, LSPError>,
)
    requires
        request_route(method) is Some,
        routes_request(request_route(method)->Some_0, id, Ok(params), task),
    ensures
        match task {
            Task::Local(LocalWork::Request(work)) => work.id == id && spec_response_for(
                work.id,
                outcome,
            ).id == id,
            Task::Background { work, .. } => work.id == id && spec_response_for(
                work.id,
                outcome,
            ).id == id,
            _ => false,
        },
{
}

/// A request of a registered method whose parameters fail to decode gets an
/// immediate internal-error response addressed to its id, with a non-empty
/// message.
pub proof fn lemma_undecodable_request_gets_internal_error<P>(
    method: Seq<char>,
    id: RequestId,
    cause: String,
    task: Task<P>,
)
    requires
        request_route(method) is Some,
        routes_request(request_route(method)->Some_0, id, Err(cause), task),
    ensures
        task matches Task::Immediate { id: i, result: Err(e) } && i == id && (spec_response_for(
            i,
            Err(e),
        ).error matches Some(re) && re.code == -32603 && re.message@.len() > 0),
{
    reveal_strlit("JSON parsing failure:\n");
}

} // verus!
