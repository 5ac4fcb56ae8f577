//! A2A protocol values: message parts, task states, the JSON-RPC request
//! envelope and the replies that the server sends, and method dispatch.
use vstd::prelude::*;
use crate::trusted::clone_json;

verus! {

/// JSON-RPC error code for a method that the server does not offer.
pub const METHOD_NOT_FOUND: i64 = -32601;

/// JSON-RPC error code for a failure inside the server.
pub const INTERNAL_ERROR: i64 = -32603;

/// JSON-RPC error code for parameters that the method cannot use.
pub const INVALID_PARAMS: i64 = -32602;

/// The JSON-RPC protocol version that every reply names.
pub open spec fn jsonrpc_version() -> Seq<char> {
    "2.0"@
}

/// The method name of A2A `message/send`.
pub open spec fn message_send_method() -> Seq<char> {
    "message/send"@
}

/// The text of the error for an unknown method.
pub open spec fn method_not_found_message(method: Seq<char>) -> Seq<char> {
    "Method not found: "@ + method
}

/// A2A message part (text content). On the wire `kind` is the field `type`.
pub struct A2aPart {
    pub kind: String,
    pub text: String,
}

/// A2A message (user or agent).
pub struct A2aMessage {
    pub role: String,
    pub parts: Vec<A2aPart>,
}

/// A2A task states. On the wire each is its name in lowercase.
#[derive(Clone, Copy, Debug, PartialEq, Eq, Structural)]
pub enum TaskState {
    Submitted,
    Working,
    Completed,
    Failed,
}

/// The status of an A2A task.
pub struct TaskStatus {
    pub state: TaskState,
}

/// An artifact of an A2A task: the parts that the agent produced.
pub struct TaskArtifact {
    pub parts: Vec<A2aPart>,
}

/// An A2A task, as the result of `message/send`.
pub struct A2aTask {
    pub id: String,
    pub status: TaskStatus,
    pub artifacts: Vec<TaskArtifact>,
}

/// A2A JSON-RPC request envelope. `id` and `params` are carried as the JSON
/// that arrived.
pub struct A2aRequest {
    pub jsonrpc: Option<String>,
    pub id: Option<serde_json::Value>,
    pub method: String,
    pub params: Option<serde_json::Value>,
}

/// The `error` member of a JSON-RPC error reply.
pub struct RpcErrorBody {
    pub code: i64,
    pub message: String,
}

/// A JSON-RPC error reply.
pub struct JsonRpcError {
    pub jsonrpc: String,
    pub id: Option<serde_json::Value>,
    pub error: RpcErrorBody,
}

/// A JSON-RPC success reply that carries an A2A task.
pub struct JsonRpcTaskResult {
    pub jsonrpc: String,
    pub id: Option<serde_json::Value>,
    pub result: A2aTask,
}

/// What the server answers to a JSON-RPC request.
pub enum A2aReply {
    Error(JsonRpcError),
    Task(JsonRpcTaskResult),
}

/// What the server does with a request.
pub enum Dispatch {
    /// Run the `message/send` lifecycle.
    MessageSend,
    /// Answer at once with this error.
    Reply(JsonRpcError),
}

// ---------------------------------------------------------------------------
// Views
// ---------------------------------------------------------------------------

pub struct A2aPartView {
    pub kind: Seq<char>,
    pub text: Seq<char>,
}

pub struct A2aMessageView {
    pub role: Seq<char>,
    pub parts: Seq<A2aPartView>,
}

pub struct TaskArtifactView {
    pub parts: Seq<A2aPartView>,
}

pub struct A2aTaskView {
    pub id: Seq<char>,
    pub state: TaskState,
    pub artifacts: Seq<TaskArtifactView>,
}

pub struct JsonRpcErrorView {
    pub jsonrpc: Seq<char>,
    pub id: Option<serde_json::Value>,
    pub code: i64,
    pub message: Seq<char>,
}

pub struct JsonRpcTaskResultView {
    pub jsonrpc: Seq<char>,
    pub id: Option<serde_json::Value>,
    pub result: A2aTaskView,
}

pub enum A2aReplyView {
    Error(JsonRpcErrorView),
    Task(JsonRpcTaskResultView),
}

impl View for A2aPart {
    type V = A2aPartView;

    open spec fn view(&self) -> A2aPartView {
        A2aPartView { kind: self.kind@, text: self.text@ }
    }
}

impl View for A2aMessage {
    type V = A2aMessageView;

    open spec fn view(&self) -> A2aMessageView {
        A2aMessageView { role: self.role@, parts: self.parts@.map_values(|p: A2aPart| p@) }
    }
}

impl View for TaskArtifact {
    type V = TaskArtifactView;

    open spec fn view(&self) -> TaskArtifactView {
        TaskArtifactView { parts: self.parts@.map_values(|p: A2aPart| p@) }
    }
}

impl View for A2aTask {
    type V = A2aTaskView;

    open spec fn view(&self) -> A2aTaskView {
        A2aTaskView {
            id: self.id@,
            state: self.status.state,
            artifacts: self.artifacts@.map_values(|a: TaskArtifact| a@),
        }
    }
}

impl View for JsonRpcError {
    type V = JsonRpcErrorView;

    open spec fn view(&self) -> JsonRpcErrorView {
        JsonRpcErrorView {
            jsonrpc: self.jsonrpc@,
            id: self.id,
            code: self.error.code,
            message: self.error.message@,
        }
    }
}

impl View for JsonRpcTaskResult {
    type V = JsonRpcTaskResultView;

    open spec fn view(&self) -> JsonRpcTaskResultView {
        JsonRpcTaskResultView { jsonrpc: self.jsonrpc@, id: self.id, result: self.result@ }
    }
}

impl View for A2aReply {
    type V = A2aReplyView;

    open spec fn view(&self) -> A2aReplyView {
        match self {
            A2aReply::Error(e) => A2aReplyView::Error(e@),
            A2aReply::Task(t) => A2aReplyView::Task(t@),
        }
    }
}

/// The error reply to request `id` with `code` and `message`.
pub open spec fn error_reply(id: Option<serde_json::Value>, code: i64, message: Seq<char>) -> JsonRpcErrorView {
    JsonRpcErrorView { jsonrpc: jsonrpc_version(), id, code, message }
}

/// The task that `message/send` reports: its id, its state, and one artifact
/// that holds the agent's text as a single `text` part.
pub open spec fn task_view(task_id: Seq<char>, state: TaskState, text: Seq<char>) -> A2aTaskView {
    A2aTaskView {
        id: task_id,
        state,
        artifacts: seq![TaskArtifactView { parts: seq![A2aPartView { kind: "text"@, text }] }],
    }
}

/// The success reply to request `id` that reports a task.
pub open spec fn task_reply(
    id: Option<serde_json::Value>,
    task_id: Seq<char>,
    state: TaskState,
    text: Seq<char>,
) -> JsonRpcTaskResultView {
    JsonRpcTaskResultView { jsonrpc: jsonrpc_version(), id, result: task_view(task_id, state, text) }
}

// ---------------------------------------------------------------------------
// Task states
// ---------------------------------------------------------------------------

/// The lowercase name under which a task state travels.
pub open spec fn wire_name_spec(state: TaskState) -> Seq<char> {
    match state {
        TaskState::Submitted => "submitted"@,
        TaskState::Working => "working"@,
        TaskState::Completed => "completed"@,
        TaskState::Failed => "failed"@,
    }
}

/// The task state that a prompt run with `status` ends in.
pub open spec fn state_for_status(status: Seq<char>) -> TaskState {
    if status == "completed"@ {
        TaskState::Completed
    } else {
        TaskState::Failed
    }
}

impl TaskState {
    /// The lowercase name under which this state travels.
    pub fn wire_name(&self) -> (r: &'static str)
        ensures
            r@ == wire_name_spec(*self),
    {
        match self {
            TaskState::Submitted => "submitted",
            TaskState::Working => "working",
            TaskState::Completed => "completed",
            TaskState::Failed => "failed",
        }
    }

    /// The state of a task whose prompt run ended with `status`: completed
    /// when the status is exactly `completed`, failed otherwise.
    pub fn from_prompt_status(status: &str) -> (r: TaskState)
        ensures
            r == state_for_status(status@),
            status@ == "completed"@ ==> r == TaskState::Completed,
            status@ != "completed"@ ==> r == TaskState::Failed,
    {
        if same_text(status, "completed") {
            TaskState::Completed
        } else {
            TaskState::Failed
        }
    }
}

/// Whether two texts are equal, character by character.
pub fn same_text(a: &str, b: &str) -> (r: bool)
    ensures
        r == (a@ == b@),
{
    let n = a.unicode_len();
    if n != b.unicode_len() {
        return false;
    }
    let mut i: usize = 0;
    while i < n
        invariant
            0 <= i <= n,
            n == a@.len(),
            n == b@.len(),
            forall|j: int| 0 <= j < i ==> a@[j] == b@[j],
        decreases n - i,
    {
        if a.get_char(i) != b.get_char(i) {
            return false;
        }
        i = i + 1;
    }
    proof {
        assert(a@ =~= b@);
    }
    true
}

/// A finished prompt run is reported completed when its status is exactly
/// `completed` and failed for every other status; it is never reported as
/// submitted or still working.
pub proof fn law_finished_task_state(status: Seq<char>)
    ensures
        status == "completed"@ ==> state_for_status(status) == TaskState::Completed,
        status != "completed"@ ==> state_for_status(status) == TaskState::Failed,
        state_for_status(status) != TaskState::Working,
        state_for_status(status) != TaskState::Submitted,
{
}

/// The four task states travel under four different names, and the name of
/// the completed state is exactly the status that makes a task completed.
pub proof fn law_wire_names_distinct(a: TaskState, b: TaskState)
    ensures
        a != b ==> wire_name_spec(a) != wire_name_spec(b),
        state_for_status(wire_name_spec(TaskState::Completed)) == TaskState::Completed,
        state_for_status(wire_name_spec(TaskState::Failed)) == TaskState::Failed,
{
    reveal_strlit("submitted");
    reveal_strlit("working");
    reveal_strlit("completed");
    reveal_strlit("failed");
    assert("failed"@.len() != "completed"@.len());
    if a != b {
        let x = wire_name_spec(a);
        let y = wire_name_spec(b);
        if x.len() == y.len() {
            assert(x[0] != y[0] || x[1] != y[1]);
        }
    }
}

/// An error reply names version `2.0`, the request's id, and exactly the
/// code and message it was given.
pub proof fn law_error_reply_fields(id: Option<serde_json::Value>, code: i64, message: Seq<char>)
    ensures
        error_reply(id, code, message).jsonrpc == "2.0"@,
        error_reply(id, code, message).id == id,
        error_reply(id, code, message).code == code,
        error_reply(id, code, message).message == message,
{
}

/// A task reply names version `2.0` and the request's id, and reports the
/// task's id and state with exactly one artifact holding exactly one part:
/// a `text` part with the agent's text, unchanged.
pub proof fn law_task_reply_fields(
    id: Option<serde_json::Value>,
    task_id: Seq<char>,
    state: TaskState,
    text: Seq<char>,
)
    ensures
        ({
            let r = task_reply(id, task_id, state, text);
            &&& r.jsonrpc == "2.0"@
            &&& r.id == id
            &&& r.result.id == task_id
            &&& r.result.state == state
            &&& r.result.artifacts.len() == 1
            &&& r.result.artifacts[0].parts.len() == 1
            &&& r.result.artifacts[0].parts[0].kind == "text"@
            &&& r.result.artifacts[0].parts[0].text == text
        }),
{
}

/// The error for an unknown method is its fixed prefix followed by the
/// method's name, unchanged.
pub proof fn law_method_not_found_names_method(method: Seq<char>)
    ensures
        method_not_found_message(method).len() == "Method not found: "@.len() + method.len(),
        method_not_found_message(method).subrange(0, "Method not found: "@.len() as int) == "Method not found: "@,
        method_not_found_message(method).subrange("Method not found: "@.len() as int, method_not_found_message(method).len() as int)
            == method,
{
    assert(method_not_found_message(method).subrange(0, "Method not found: "@.len() as int) =~= "Method not found: "@);
    assert(method_not_found_message(method).subrange("Method not found: "@.len() as int, method_not_found_message(method).len() as int)
        =~= method);
}

// ---------------------------------------------------------------------------
// Replies and dispatch
// ---------------------------------------------------------------------------

/// Copies an optional request id.
pub(crate) fn copy_id(id: Option<&serde_json::Value>) -> (r: Option<serde_json::Value>)
    ensures
        r == match id {
            Some(v) => Some(*v),
            None => None::<serde_json::Value>,
        },
{
    match id {
        Some(v) => Some(clone_json(v)),
        None => None,
    }
}

/// The JSON-RPC error reply to request `id`: protocol version `2.0`, the
/// same id, and an error with `code` and `message`.
pub fn jsonrpc_error(id: Option<&serde_json::Value>, code: i64, message: &str) -> (r: JsonRpcError)
    ensures
        r@ == error_reply(
            match id {
                Some(v) => Some(*v),
                None => None::<serde_json::Value>,
            },
            code,
            message@,
        ),
{
    JsonRpcError {
        jsonrpc: String::from_str("2.0"),
        id: copy_id(id),
        error: RpcErrorBody { code, message: String::from_str(message) },
    }
}

/// Routes a request: `message/send` runs the send lifecycle; any other
/// method is answered with a method-not-found error that names it.
pub fn dispatch(req: &A2aRequest) -> (r: Dispatch)
    ensures
        req.method@ == message_send_method() ==> r is MessageSend,
        req.method@ != message_send_method() ==> (r matches Dispatch::Reply(e) && e@ == error_reply(
            req.id,
            METHOD_NOT_FOUND,
            method_not_found_message(req.method@),
        )),
{
    if same_text(req.method.as_str(), "message/send") {
        Dispatch::MessageSend
    } else {
        let mut message = String::from_str("Method not found: ");
        message.append(req.method.as_str());
        let id = match &req.id {
            Some(v) => Some(v),
            None => None,
        };
        Dispatch::Reply(jsonrpc_error(id, METHOD_NOT_FOUND, message.as_str()))
    }
}

} // verus!
