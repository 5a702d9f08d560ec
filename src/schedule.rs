//! Deferred units of work and the lanes they run on.
use vstd::prelude::*;
use crate::error::LSPError;
use crate::message::RequestId;

verus! {

/// The concurrent lanes that background work is handed to. Each lane has its
/// own concurrency bound; the class names a lane, not a priority.
#[derive(Clone, Copy, Debug, PartialEq, Eq, Structural)]
pub enum BackgroundSchedule {
    /// Interactive operations: completion, hover, navigation, code actions.
    LatencySensitive,
    /// General background computation.
    Worker,
    /// Formatting.
    Fmt,
}

/// The request handlers that the router knows.
#[derive(Clone, Copy, Debug, PartialEq, Eq, Structural)]
pub enum RequestKind {
    CodeAction,
    Completion,
    ExecuteCommand,
    ExpandMacro,
    Formatting,
    GotoDefinition,
    Hover,
    ProvideVirtualFile,
    SemanticTokensFull,
    ViewAnalyzedCrates,
}

/// The notification handlers that the router knows.
#[derive(Clone, Copy, Debug, PartialEq, Eq, Structural)]
pub enum NotificationKind {
    Cancel,
    DidChangeTextDocument,
    DidChangeConfiguration,
    DidChangeWatchedFiles,
    DidCloseTextDocument,
    DidOpenTextDocument,
    DidSaveTextDocument,
}

/// A request whose parameters were decoded: the handler to run, the id to
/// answer, and the parameters.
pub struct RequestWork<P> {
    pub kind: RequestKind,
    pub id: RequestId,
    pub params: P,
}

/// A notification whose parameters were decoded.
pub struct NotificationWork<P> {
    pub kind: NotificationKind,
    pub params: P,
}

/// Work that needs exclusive read/write access to the session state.
pub enum LocalWork<P> {
    Request(RequestWork<P>),
    Notification(NotificationWork<P>),
}

/// A unit of deferred work, tagged with how and where it must run.
pub enum Task<P> {
    /// No work and no response.
    Nothing,
    /// An outcome known already, to be sent as the response to `id`.
    Immediate { id: RequestId, result: Result<serde_json::Value, LSPError> },
    /// Runs on the session context with access to the live state.
    Local(LocalWork<P>),
    /// Takes a snapshot on the session context, then runs on the lane of
    /// `schedule` against that snapshot alone.
    Background { schedule: BackgroundSchedule, work: RequestWork<P> },
}

impl<P> Task<P> {
    pub fn nothing() -> (r: Self)
        ensures
            r is Nothing,
    {
        Task::Nothing
    }

    pub fn immediate(id: RequestId, result: Result<serde_json::Value, LSPError>) -> (r: Self)
        ensures
            r == (Task::<P>::Immediate { id, result }),
    {
        Task::Immediate { id, result }
    }
}

/// The second phase of a background task: the work together with the
/// point-in-time copy of the state that it may read. The copy is owned by the
/// job, so nothing done to the live state afterwards reaches it.
pub struct BackgroundJob<P, S> {
    pub schedule: BackgroundSchedule,
    pub work: RequestWork<P>,
    pub snapshot: S,
}

impl<P, S> BackgroundJob<P, S> {
    /// Pairs background work with the snapshot taken for it on the session
    /// context.
    pub fn new(schedule: BackgroundSchedule, work: RequestWork<P>, snapshot: S) -> (r: Self)
        ensures
            r.schedule == schedule,
            r.work == work,
            r.snapshot == snapshot,
    {
        BackgroundJob { schedule, work, snapshot }
    }
}

} // verus!
