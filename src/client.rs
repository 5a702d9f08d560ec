//! The outbound side of the connection: notifications, responses, and
//! server-issued requests with the correlation of their responses.
use vstd::prelude::*;
use rustc_hash::{FxBuildHasher, FxHashMap};
use crate::error::LSPError;
use crate::message::{Message, Notification, Request, RequestId, Response, ResponseError};

verus! {

/// The sending end of a channel.
#[verifier::external_type_specification]
#[verifier::external_body]
#[verifier::reject_recursive_types(T)]
pub struct ExSender<T>(crossbeam_channel::Sender<T>);

/// The hasher builder of the response-handler table.
#[verifier::external_type_specification]
#[verifier::external_body]
pub struct ExFxBuildHasher(FxBuildHasher);

/// The channel on which messages go out to the editor.
pub type ClientSender = crossbeam_channel::Sender<Message>;

/// Relies on crossbeam_channel::Sender::send: it fails only when every
/// receiver is gone, and then hands the unsent message back.
#[verifier::external_body]
fn send_message(sender: &ClientSender, message: Message) -> (r: Result<(), Message>)
    ensures
        r matches Err(back) ==> back == message,
{
    sender.send(message).map_err(|e| e.0)
}

/// Relies on crossbeam_channel::Sender::clone: another handle on the same
/// channel.
#[verifier::external_body]
fn clone_sender(sender: &ClientSender) -> ClientSender {
    sender.clone()
}

/// Relies on HashMap::insert, here with rustc_hash's FxBuildHasher: the key
/// maps to the value afterwards, the other entries stay.
#[verifier::external_body]
fn insert_handler<H>(
    handlers: &mut FxHashMap<i32, PendingResponse<H>>,
    id: i32,
    pending: PendingResponse<H>,
)
    ensures
        final(handlers)@ == old(handlers)@.insert(id, pending),
{
    handlers.insert(id, pending);
}

/// Relies on HashMap::remove, here with rustc_hash's FxBuildHasher: the entry
/// of the key goes and its value is returned, if there was one.
#[verifier::external_body]
fn remove_handler<H>(handlers: &mut FxHashMap<i32, PendingResponse<H>>, id: i32) -> (r: Option<
    PendingResponse<H>,
>)
    ensures
        final(handlers)@ == old(handlers)@.remove(id),
        r == (if old(handlers)@.contains_key(id) {
            Some(old(handlers)@[id])
        } else {
            None
        }),
{
    handlers.remove(&id)
}

/// The response sent for a handler's outcome: the payload on success, the
/// error's code and message otherwise.
pub open spec fn spec_response_for(id: RequestId, result: Result<serde_json::Value, LSPError>) -> Response {
    match result {
        Ok(v) => Response { id, result: Some(v), error: None },
        Err(e) => Response {
            id,
            result: None,
            error: Some(ResponseError { code: e.code.spec_value() as i32, message: e.error }),
        },
    }
}

pub fn response_for(id: RequestId, result: Result<serde_json::Value, LSPError>) -> (r: Response)
    ensures
        r == spec_response_for(id, result),
{
    match result {
        Ok(v) => Response { id, result: Some(v), error: None },
        Err(e) => {
            let code = e.code.value();
            Response { id, result: None, error: Some(ResponseError { code, message: e.error }) }
        },
    }
}

/// Sends notifications to the editor.
pub struct Notifier(ClientSender);

/// Sends responses to the editor.
pub struct Responder(ClientSender);

impl Notifier {
    pub fn new(sender: ClientSender) -> Self {
        Notifier(sender)
    }

    /// Sends a notification. A closed channel is reported to the caller, with
    /// the notification that could not go out.
    pub fn notify(&self, method: String, params: serde_json::Value) -> (r: Result<(), Message>)
        ensures
            r matches Err(back) ==> back == Message::Notification(
                Notification { method, params },
            ),
    {
        send_message(&self.0, Message::Notification(Notification { method, params }))
    }
}

impl Responder {
    pub fn new(sender: ClientSender) -> Self {
        Responder(sender)
    }

    /// Sends exactly one response to `id` for the outcome `result`. A closed
    /// channel is reported to the caller, with the response that could not go
    /// out.
    pub fn respond(&self, id: RequestId, result: Result<serde_json::Value, LSPError>) -> (r: Result<
        (),
        Message,
    >)
        ensures
            r matches Err(back) ==> back == Message::Response(spec_response_for(id, result)),
    {
        let response = response_for(id, result);
        send_message(&self.0, Message::Response(response))
    }
}

/// A continuation registered for a server-issued request, with whether the
/// request's result type is the empty type.
pub struct PendingResponse<H> {
    pub handler: H,
    pub unit_result: bool,
}

/// What to do with a response to a server-issued request.
pub enum ResponseTask<H> {
    /// Nothing: no handler, a peer-reported error, or no usable result.
    Nothing,
    /// Decode `result` and hand it to `handler`.
    Deliver { handler: H, result: serde_json::Value },
    /// Hand the empty value to `handler`.
    DeliverUnit { handler: H },
}

/// The key under which a handler for `id` is registered, if it can have one:
/// the server issues integer ids only.
pub open spec fn response_key(id: RequestId) -> Option<i32> {
    match id {
        RequestId::Int(i) => Some(i),
        RequestId::Str(_) => None,
    }
}

/// What the registered `pending` makes of a response. A peer-reported error
/// is logged only; a response with neither result nor error is the empty
/// value when that is what the request expects.
pub open spec fn dispatch_response<H>(
    pending: PendingResponse<H>,
    result: Option<serde_json::Value>,
    error: Option<ResponseError>,
) -> ResponseTask<H> {
    if error is Some {
        ResponseTask::Nothing
    } else {
        match result {
            Some(v) => ResponseTask::Deliver { handler: pending.handler, result: v },
            None => if pending.unit_result {
                ResponseTask::DeliverUnit { handler: pending.handler }
            } else {
                ResponseTask::Nothing
            },
        }
    }
}

/// Consuming `response` turns the handler table `before` into `after` and
/// yields `task`: the handler of the response's id is removed and applied, or,
/// where there is none, nothing changes and nothing is done.
pub open spec fn consumes_response<H>(
    before: Map<i32, PendingResponse<H>>,
    response: Response,
    after: Map<i32, PendingResponse<H>>,
    task: ResponseTask<H>,
) -> bool {
    match response_key(response.id) {
        Some(k) => if before.contains_key(k) {
            after == before.remove(k) && task == dispatch_response(
                before[k],
                response.result,
                response.error,
            )
        } else {
            after == before && task is Nothing
        },
        None => after == before && task is Nothing,
    }
}

/// Issuing a request moves the counter from `next_before` to `next_after` and
/// registers `pending` under the id that was allocated.
pub open spec fn issues_request<H>(
    next_before: int,
    before: Map<i32, PendingResponse<H>>,
    next_after: int,
    after: Map<i32, PendingResponse<H>>,
    pending: PendingResponse<H>,
) -> bool {
    &&& next_after == next_before + 1
    &&& after == before.insert(next_before as i32, pending)
}

/// Issues requests to the editor and correlates their responses.
pub struct Requester<H> {
    sender: ClientSender,
    next_request_id: i32,
    response_handlers: FxHashMap<i32, PendingResponse<H>>,
}

impl<H> Requester<H> {
    /// The id that the next request gets.
    pub closed spec fn next_id(&self) -> int {
        self.next_request_id as int
    }

    /// The handlers of the requests that await a response, by id.
    pub closed spec fn pending(&self) -> Map<i32, PendingResponse<H>> {
        self.response_handlers@
    }

    /// Ids start at 1, and every pending id was allocated before.
    pub closed spec fn wf(&self) -> bool {
        &&& 1 <= self.next_request_id
        &&& forall|k: i32| #[trigger]
            self.response_handlers@.contains_key(k) ==> 1 <= k < self.next_request_id
    }

    /// The id that the next request gets.
    pub fn next_request_id(&self) -> (r: i32)
        ensures
            r == self.next_id(),
    {
        self.next_request_id
    }

    pub fn new(sender: ClientSender) -> (r: Self)
        ensures
            r.wf(),
            r.next_id() == 1,
            r.pending() == Map::<i32, PendingResponse<H>>::empty(),
    {
        Requester { sender, next_request_id: 1, response_handlers: FxHashMap::default() }
    }

    /// Allocates the next id, registers `handler` under it and sends the
    /// request, without waiting for the reply. The id is used up even where
    /// the channel is closed; that failure is reported with the request that
    /// could not go out.
    pub fn request(
        &mut self,
        method: String,
        params: serde_json::Value,
        handler: H,
        unit_result: bool,
    ) -> (r: Result<(), Message>)
        requires
            old(self).wf(),
            old(self).next_id() < i32::MAX,
        ensures
            final(self).wf(),
            issues_request(
                old(self).next_id(),
                old(self).pending(),
                final(self).next_id(),
                final(self).pending(),
                PendingResponse { handler, unit_result },
            ),
            r matches Err(back) ==> back == Message::Request(
                Request { id: RequestId::Int(old(self).next_id() as i32), method, params },
            ),
    {
        let id = self.next_request_id;
        insert_handler(&mut self.response_handlers, id, PendingResponse { handler, unit_result });
        self.next_request_id = id + 1;
        send_message(&self.sender, Message::Request(Request { id: RequestId::Int(id), method, params }))
    }

    /// Removes the handler registered for the response's id and says what to
    /// do with the response; without such a handler, does nothing.
    pub fn pop_response_task(&mut self, response: Response) -> (r: ResponseTask<H>)
        requires
            old(self).wf(),
        ensures
            final(self).wf(),
            final(self).next_id() == old(self).next_id(),
            consumes_response(old(self).pending(), response, final(self).pending(), r),
    {
        let Response { id, result, error } = response;
        match id {
            RequestId::Int(k) => match remove_handler(&mut self.response_handlers, k) {
                Some(pending) => {
                    if error.is_some() {
                        ResponseTask::Nothing
                    } else {
                        match result {
                            Some(v) => ResponseTask::Deliver { handler: pending.handler, result: v },
                            None => if pending.unit_result {
                                ResponseTask::DeliverUnit { handler: pending.handler }
                            } else {
                                ResponseTask::Nothing
                            },
                        }
                    }
                },
                None => {
                    assert(self.response_handlers@ =~= old(self).response_handlers@);
                    ResponseTask::Nothing
                },
            },
            RequestId::Str(_) => ResponseTask::Nothing,
        }
    }
}

/// The three outbound handles of one connection.
pub struct Client<H> {
    notifier: Notifier,
    responder: Responder,
    pub requester: Requester<H>,
}

impl<H> Client<H> {
    /// The requester of the connection.
    pub closed spec fn spec_requester(&self) -> Requester<H> {
        self.requester
    }

    pub fn new(sender: ClientSender) -> (r: Self)
        ensures
            r.spec_requester().wf(),
            r.spec_requester().next_id() == 1,
            r.spec_requester().pending() == Map::<i32, PendingResponse<H>>::empty(),
    {
        let notifier = Notifier(clone_sender(&sender));
        let responder = Responder(clone_sender(&sender));
        Client { notifier, responder, requester: Requester::new(sender) }
    }

    pub fn notifier(&self) -> Notifier {
        Notifier(clone_sender(&self.notifier.0))
    }

    pub fn responder(&self) -> Responder {
        Responder(clone_sender(&self.responder.0))
    }
}

/// The tables of a fresh requester after each of a run of requests:
/// `nexts[i]` and `tables[i]` are its counter and handlers after `i`
/// requests, the `i`-th registering `handlers[i]`.
pub open spec fn request_run<H>(
    nexts: Seq<int>,
    tables: Seq<Map<i32, PendingResponse<H>>>,
    handlers: Seq<PendingResponse<H>>,
) -> bool {
    &&& nexts.len() == handlers.len() + 1
    &&& tables.len() == nexts.len()
    &&& nexts[0] == 1
    &&& tables[0] == Map::<i32, PendingResponse<H>>::empty()
    &&& forall|i: int|
        0 <= i < handlers.len() ==> #[trigger] issues_request(
            nexts[i],
            tables[i],
            nexts[i + 1],
            tables[i + 1],
            handlers[i],
        )
}

proof fn lemma_request_run_prefix<H>(
    nexts: Seq<int>,
    tables: Seq<Map<i32, PendingResponse<H>>>,
    handlers: Seq<PendingResponse<H>>,
    k: int,
)
    requires
        request_run(nexts, tables, handlers),
        handlers.len() < i32::MAX,
        0 <= k < nexts.len(),
    ensures
        forall|i: int| 0 <= i <= k ==> nexts[i] == i + 1,
        forall|key: i32| #[trigger] tables[k].contains_key(key) ==> 1 <= key < nexts[k],
    decreases k,
{
    if k > 0 {
        lemma_request_run_prefix(nexts, tables, handlers, k - 1);
        assert(issues_request(nexts[k - 1], tables[k - 1], nexts[k], tables[k], handlers[k - 1]));
    }
}

/// From a fresh requester, the ids of a run of requests are 1, 2, 3, … with
/// no gap: the request issued after `i` others gets id `i + 1`, and no
/// pending request holds that id when it is issued.
pub proof fn lemma_request_ids_sequential<H>(
    nexts: Seq<int>,
    tables: Seq<Map<i32, PendingResponse<H>>>,
    handlers: Seq<PendingResponse<H>>,
)
    requires
        request_run(nexts, tables, handlers),
        handlers.len() < i32::MAX,
    ensures
        forall|i: int| 0 <= i < nexts.len() ==> #[trigger] nexts[i] == i + 1,
        forall|i: int|
            0 <= i < handlers.len() ==> !(#[trigger] tables[i]).contains_key(nexts[i] as i32),
{
    lemma_request_run_prefix(nexts, tables, handlers, nexts.len() - 1);
    assert forall|i: int| 0 <= i < handlers.len() implies !(#[trigger] tables[i]).contains_key(
        nexts[i] as i32,
    ) by {
        lemma_request_run_prefix(nexts, tables, handlers, i);
    }
}

/// A response is consumed once: after its handler was taken, a second
/// response with the same id finds no handler, changes nothing and yields no
/// work.
pub proof fn lemma_response_consumed_once<H>(
    before: Map<i32, PendingResponse<H>>,
    first: Response,
    between: Map<i32, PendingResponse<H>>,
    first_task: ResponseTask<H>,
    second: Response,
    after: Map<i32, PendingResponse<H>>,
    second_task: ResponseTask<H>,
)
    requires
        consumes_response(before, first, between, first_task),
        consumes_response(between, second, after, second_task),
        first.id == second.id,
    ensures
        second_task is Nothing,
        after == between,
{
}

} // verus!
