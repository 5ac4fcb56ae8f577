//! The lifecycle of A2A `message/send`: check the message, open a session,
//! run the prompt, close the session, report the task.
//!
//! The engine work (reading the message parts, sessions, the prompt run) is
//! done by the caller; `MessageSend::step` takes what that work produced and
//! says what to do next.
use vstd::prelude::*;
use crate::protocol::{
    error_reply, jsonrpc_version, jsonrpc_error, state_for_status, task_reply, A2aPart, A2aPartView, A2aReply,
    A2aReplyView, A2aTask, JsonRpcTaskResult, TaskArtifact, TaskArtifactView, TaskState, TaskStatus,
    INTERNAL_ERROR, INVALID_PARAMS,
};
use crate::config::opt_view;
use crate::trusted::{
    clone_json, is_uuid_v4_text, json_array, json_array_spec, json_member, json_member_spec, json_text,
    json_text_spec, random_bytes, uuid_v4_text,
};

verus! {

/// The text of the error for a message with neither text nor images.
pub open spec fn empty_message_text() -> Seq<char> {
    "Missing or empty message — expected at least one text or image part"@
}

/// The text of the error for a task whose id could not be drawn.
pub open spec fn no_task_id_text() -> Seq<char> {
    "Could not draw a random task id"@
}

/// The working directory of the session when the request names none.
pub open spec fn default_cwd() -> Seq<char> {
    "/tmp"@
}

/// Where a `message/send` exchange stands.
pub enum SendPhase {
    /// Waiting for the message content that the engine read from the request.
    AwaitingContent,
    /// A session was asked for; the user text and the task id wait for it.
    AwaitingSession { user_text: String, task_id: String },
    /// The prompt runs in this session; the task has this id.
    AwaitingPrompt { session_id: String, task_id: String },
    /// The prompt is over and the session is being closed.
    AwaitingEnd { task_id: String, state: TaskState, text: String },
    /// The reply has been given.
    Done,
}

/// One `message/send` exchange, for the request with id `id`.
pub struct MessageSend {
    pub id: Option<serde_json::Value>,
    pub phase: SendPhase,
}

/// What the engine work produced.
pub enum SendEvent {
    /// The message text (sender context already stripped), whether the
    /// message held images, and the `metadata.cwd` of the request if it was
    /// a string.
    Content { user_text: String, has_images: bool, cwd: Option<String> },
    /// A session was opened.
    SessionCreated { session_id: String },
    /// Opening a session failed with this error.
    SessionFailed { code: i64, message: String },
    /// The prompt run ended with this status and text.
    PromptFinished { status: String, text: String },
    /// The session was closed (whatever the outcome).
    SessionEnded,
}

/// What to do next.
pub enum SendAction {
    /// Open a session in this working directory.
    CreateSession { cwd: String },
    /// Run the prompt with this text (and the message's images) in the session.
    RunPrompt { session_id: String, user_text: String },
    /// Close the session.
    EndSession { session_id: String },
    /// Answer the request; the exchange is over.
    Reply(A2aReply),
}

pub enum SendPhaseView {
    AwaitingContent,
    AwaitingSession { user_text: Seq<char>, task_id: Seq<char> },
    AwaitingPrompt { session_id: Seq<char>, task_id: Seq<char> },
    AwaitingEnd { task_id: Seq<char>, state: TaskState, text: Seq<char> },
    Done,
}

pub struct MessageSendView {
    pub id: Option<serde_json::Value>,
    pub phase: SendPhaseView,
}

pub enum SendEventView {
    Content { user_text: Seq<char>, has_images: bool, cwd: Option<Seq<char>> },
    SessionCreated { session_id: Seq<char> },
    SessionFailed { code: i64, message: Seq<char> },
    PromptFinished { status: Seq<char>, text: Seq<char> },
    SessionEnded,
}

pub enum SendActionView {
    CreateSession { cwd: Seq<char> },
    RunPrompt { session_id: Seq<char>, user_text: Seq<char> },
    EndSession { session_id: Seq<char> },
    Reply(A2aReplyView),
}

impl View for SendPhase {
    type V = SendPhaseView;

    open spec fn view(&self) -> SendPhaseView {
        match self {
            SendPhase::AwaitingContent => SendPhaseView::AwaitingContent,
            SendPhase::AwaitingSession { user_text, task_id } => SendPhaseView::AwaitingSession {
                user_text: user_text@,
                task_id: task_id@,
            },
            SendPhase::AwaitingPrompt { session_id, task_id } => SendPhaseView::AwaitingPrompt {
                session_id: session_id@,
                task_id: task_id@,
            },
            SendPhase::AwaitingEnd { task_id, state, text } => SendPhaseView::AwaitingEnd {
                task_id: task_id@,
                state: *state,
                text: text@,
            },
            SendPhase::Done => SendPhaseView::Done,
        }
    }
}

impl View for MessageSend {
    type V = MessageSendView;

    open spec fn view(&self) -> MessageSendView {
        MessageSendView { id: self.id, phase: self.phase@ }
    }
}

impl View for SendEvent {
    type V = SendEventView;

    open spec fn view(&self) -> SendEventView {
        match self {
            SendEvent::Content { user_text, has_images, cwd } => SendEventView::Content {
                user_text: user_text@,
                has_images: *has_images,
                cwd: match cwd {
                    Some(c) => Some(c@),
                    None => None,
                },
            },
            SendEvent::SessionCreated { session_id } => SendEventView::SessionCreated {
                session_id: session_id@,
            },
            SendEvent::SessionFailed { code, message } => SendEventView::SessionFailed {
                code: *code,
                message: message@,
            },
            SendEvent::PromptFinished { status, text } => SendEventView::PromptFinished {
                status: status@,
                text: text@,
            },
            SendEvent::SessionEnded => SendEventView::SessionEnded,
        }
    }
}

impl View for SendAction {
    type V = SendActionView;

    open spec fn view(&self) -> SendActionView {
        match self {
            SendAction::CreateSession { cwd } => SendActionView::CreateSession { cwd: cwd@ },
            SendAction::RunPrompt { session_id, user_text } => SendActionView::RunPrompt {
                session_id: session_id@,
                user_text: user_text@,
            },
            SendAction::EndSession { session_id } => SendActionView::EndSession {
                session_id: session_id@,
            },
            SendAction::Reply(r) => SendActionView::Reply(r@),
        }
    }
}

/// The event that each phase waits for.
pub open spec fn accepts(m: MessageSendView, e: SendEventView) -> bool {
    match m.phase {
        SendPhaseView::AwaitingContent => e is Content,
        SendPhaseView::AwaitingSession { .. } => e is SessionCreated || e is SessionFailed,
        SendPhaseView::AwaitingPrompt { .. } => e is PromptFinished,
        SendPhaseView::AwaitingEnd { .. } => e is SessionEnded,
        SendPhaseView::Done => false,
    }
}

/// One step of the exchange: from where it stands and what the engine work
/// produced, where it goes and what to do. `draw` is the task id drawn for a
/// message that has content (`None` when no random id could be drawn).
pub open spec fn spec_step(m: MessageSendView, e: SendEventView, draw: Option<Seq<char>>) -> (
    MessageSendView,
    SendActionView,
) {
    match (m.phase, e) {
        (SendPhaseView::AwaitingContent, SendEventView::Content { user_text, has_images, cwd }) => {
            if user_text.len() == 0 && !has_images {
                (
                    MessageSendView { id: m.id, phase: SendPhaseView::Done },
                    SendActionView::Reply(
                        A2aReplyView::Error(error_reply(m.id, INVALID_PARAMS, empty_message_text())),
                    ),
                )
            } else {
                match draw {
                    Some(task_id) => (
                        MessageSendView { id: m.id, phase: SendPhaseView::AwaitingSession { user_text, task_id } },
                        SendActionView::CreateSession { cwd: text_or_default_cwd(cwd) },
                    ),
                    None => (
                        MessageSendView { id: m.id, phase: SendPhaseView::Done },
                        SendActionView::Reply(
                            A2aReplyView::Error(error_reply(m.id, INTERNAL_ERROR, no_task_id_text())),
                        ),
                    ),
                }
            }
        },
        (
            SendPhaseView::AwaitingSession { user_text, task_id },
            SendEventView::SessionCreated { session_id },
        ) => (
            MessageSendView { id: m.id, phase: SendPhaseView::AwaitingPrompt { session_id, task_id } },
            SendActionView::RunPrompt { session_id, user_text },
        ),
        (SendPhaseView::AwaitingSession { .. }, SendEventView::SessionFailed { code, message }) => (
            MessageSendView { id: m.id, phase: SendPhaseView::Done },
            SendActionView::Reply(A2aReplyView::Error(error_reply(m.id, code, message))),
        ),
        (
            SendPhaseView::AwaitingPrompt { session_id, task_id: tid },
            SendEventView::PromptFinished { status, text },
        ) => (
            MessageSendView {
                id: m.id,
                phase: SendPhaseView::AwaitingEnd { task_id: tid, state: state_for_status(status), text },
            },
            SendActionView::EndSession { session_id },
        ),
        (SendPhaseView::AwaitingEnd { task_id: tid, state, text }, SendEventView::SessionEnded) => (
            MessageSendView { id: m.id, phase: SendPhaseView::Done },
            SendActionView::Reply(A2aReplyView::Task(task_reply(m.id, tid, state, text))),
        ),
        _ => (m, arbitrary()),
    }
}

/// The step draws a task id exactly when a message with content arrives,
/// before any session is asked for.
pub open spec fn draws_task_id(m: MessageSendView, e: SendEventView) -> bool {
    &&& m.phase is AwaitingContent
    &&& e matches SendEventView::Content { user_text, has_images, .. } && (user_text.len() > 0 || has_images)
}

/// The task id that a phase holds while its session is being opened.
pub open spec fn drawn_task_id(p: SendPhaseView) -> Option<Seq<char>> {
    match p {
        SendPhaseView::AwaitingSession { task_id, .. } => Some(task_id),
        _ => None,
    }
}

/// The working directory requested, or `/tmp`.
pub open spec fn text_or_default_cwd(cwd: Option<Seq<char>>) -> Seq<char> {
    match cwd {
        Some(c) => c,
        None => default_cwd(),
    }
}

/// The request id that a reply carries.
pub open spec fn reply_id(r: A2aReplyView) -> Option<serde_json::Value> {
    match r {
        A2aReplyView::Error(e) => e.id,
        A2aReplyView::Task(t) => t.id,
    }
}

/// Every reply carries the id of the request it answers, and no step
/// changes which request the exchange belongs to.
pub proof fn law_reply_echoes_request_id(m: MessageSendView, e: SendEventView, draw: Option<Seq<char>>)
    requires
        accepts(m, e),
    ensures
        spec_step(m, e, draw).0.id == m.id,
        spec_step(m, e, draw).1 matches SendActionView::Reply(r) ==> reply_id(r) == m.id && reply_version(r)
            == jsonrpc_version(),
        spec_step(m, e, draw).1 is Reply ==> spec_step(m, e, draw).0.phase is Done,
{
}

/// The protocol version that a reply names.
pub open spec fn reply_version(r: A2aReplyView) -> Seq<char> {
    match r {
        A2aReplyView::Error(e) => e.jsonrpc,
        A2aReplyView::Task(t) => t.jsonrpc,
    }
}

/// The exchange driven by the events `es`, the `i`-th step drawing `ds[i]`:
/// where it ends and the actions it asks for, in order.
pub open spec fn run(m: MessageSendView, es: Seq<SendEventView>, ds: Seq<Option<Seq<char>>>) -> (
    MessageSendView,
    Seq<SendActionView>,
)
    decreases es.len(),
{
    if es.len() == 0 {
        (m, Seq::empty())
    } else {
        let (m1, a) = spec_step(m, es[0], ds[0]);
        let (mf, rest) = run(m1, es.drop_first(), ds.drop_first());
        (mf, seq![a] + rest)
    }
}

/// Every event of `es` is the one that the exchange waits for when it comes.
pub open spec fn run_accepted(m: MessageSendView, es: Seq<SendEventView>, ds: Seq<Option<Seq<char>>>) -> bool
    decreases es.len(),
{
    es.len() == 0 || (accepts(m, es[0]) && run_accepted(
        spec_step(m, es[0], ds[0]).0,
        es.drop_first(),
        ds.drop_first(),
    ))
}

/// Over a whole exchange, on every path: each request is answered at most
/// once and only by the last action, and the answer names protocol version
/// `2.0` and the request's own id (an error or a task, never both).
pub proof fn law_every_path_answers_once_with_request_id(
    m: MessageSendView,
    es: Seq<SendEventView>,
    ds: Seq<Option<Seq<char>>>,
)
    requires
        run_accepted(m, es, ds),
    ensures
        run(m, es, ds).1.len() == es.len(),
        run(m, es, ds).0.id == m.id,
        forall|i: int|
            0 <= i < es.len() && (#[trigger] run(m, es, ds).1[i]) is Reply ==> i == es.len() - 1,
        forall|i: int|
            0 <= i < es.len() ==> (#[trigger] run(m, es, ds).1[i] matches SendActionView::Reply(r) ==> reply_id(r)
                == m.id && reply_version(r) == jsonrpc_version()),
    decreases es.len(),
{
    if es.len() > 0 {
        let (m1, a) = spec_step(m, es[0], ds[0]);
        law_reply_echoes_request_id(m, es[0], ds[0]);
        law_every_path_answers_once_with_request_id(m1, es.drop_first(), ds.drop_first());
        let acts = run(m, es, ds).1;
        let rest = run(m1, es.drop_first(), ds.drop_first()).1;
        assert(acts =~= seq![a] + rest);
        if a is Reply {
            assert(m1.phase is Done);
            if es.drop_first().len() > 0 {
                assert(!accepts(m1, es.drop_first()[0]));
            }
        }
        assert forall|i: int| 0 <= i < es.len() && (#[trigger] run(m, es, ds).1[i]) is Reply implies i == es.len()
            - 1 by {
            if i > 0 {
                assert(acts[i] == rest[i - 1]);
            }
        }
        assert forall|i: int|
            0 <= i < es.len() implies (#[trigger] run(m, es, ds).1[i] matches SendActionView::Reply(r) ==> reply_id(r)
            == m.id && reply_version(r) == jsonrpc_version()) by {
            if i > 0 {
                assert(acts[i] == rest[i - 1]);
            }
        }
    }
}

/// A message with neither text nor images is answered at once with an
/// invalid-params error, and no session is opened.
pub proof fn law_empty_message_rejected(
    id: Option<serde_json::Value>,
    cwd: Option<Seq<char>>,
    draw: Option<Seq<char>>,
)
    ensures
        ({
            let m = MessageSendView { id, phase: SendPhaseView::AwaitingContent };
            let e = SendEventView::Content { user_text: Seq::empty(), has_images: false, cwd };
            spec_step(m, e, draw) == (
                MessageSendView { id, phase: SendPhaseView::Done },
                SendActionView::Reply(A2aReplyView::Error(error_reply(id, INVALID_PARAMS, empty_message_text()))),
            )
        }),
{
}

/// A message with text or images, for which a task id was drawn, opens a
/// session in the requested working directory or else in `/tmp`.
pub proof fn law_content_opens_session(
    m: MessageSendView,
    user_text: Seq<char>,
    has_images: bool,
    cwd: Option<Seq<char>>,
    task_id: Seq<char>,
)
    requires
        m.phase is AwaitingContent,
        user_text.len() > 0 || has_images,
    ensures
        spec_step(m, SendEventView::Content { user_text, has_images, cwd }, Some(task_id)).1
            == (SendActionView::CreateSession { cwd: text_or_default_cwd(cwd) }),
{
}

/// When no task id can be drawn, no session is opened: the request is
/// answered at once with an internal error.
pub proof fn law_no_task_id_opens_no_session(
    m: MessageSendView,
    user_text: Seq<char>,
    has_images: bool,
    cwd: Option<Seq<char>>,
)
    requires
        m.phase is AwaitingContent,
        user_text.len() > 0 || has_images,
    ensures
        spec_step(m, SendEventView::Content { user_text, has_images, cwd }, None) == (
            MessageSendView { id: m.id, phase: SendPhaseView::Done },
            SendActionView::Reply(A2aReplyView::Error(error_reply(m.id, INTERNAL_ERROR, no_task_id_text()))),
        ),
{
}

/// No reply is given while a session is open: the step out of a running
/// prompt closes that very session.
pub proof fn law_no_reply_while_session_open(m: MessageSendView, e: SendEventView, draw: Option<Seq<char>>)
    requires
        accepts(m, e),
        m.phase is AwaitingPrompt,
    ensures
        spec_step(m, e, draw).1 == (SendActionView::EndSession { session_id: m.phase->AwaitingPrompt_session_id }),
{
}

/// A session that opens is the session that the prompt runs in and the
/// session that is closed next.
pub proof fn law_opened_session_is_ended(
    m: MessageSendView,
    session_id: Seq<char>,
    e2: SendEventView,
    d1: Option<Seq<char>>,
    d2: Option<Seq<char>>,
)
    requires
        m.phase is AwaitingSession,
        accepts(spec_step(m, SendEventView::SessionCreated { session_id }, d1).0, e2),
    ensures
        ({
            let (m1, a1) = spec_step(m, SendEventView::SessionCreated { session_id }, d1);
            &&& a1 matches SendActionView::RunPrompt { session_id: s, .. } && s == session_id
            &&& spec_step(m1, e2, d2).1 == (SendActionView::EndSession { session_id })
        }),
{
}

/// Once the session has opened, the reply that ends the exchange reports the
/// task id drawn for it, completed exactly when the prompt run's status is
/// `completed`, with the prompt's text as its one artifact.
pub proof fn law_task_reply_reports_prompt(
    m: MessageSendView,
    session_id: Seq<char>,
    status: Seq<char>,
    text: Seq<char>,
    d1: Option<Seq<char>>,
    d2: Option<Seq<char>>,
    d3: Option<Seq<char>>,
)
    requires
        m.phase is AwaitingSession,
    ensures
        ({
            let m1 = spec_step(m, SendEventView::SessionCreated { session_id }, d1).0;
            let m2 = spec_step(m1, SendEventView::PromptFinished { status, text }, d2).0;
            let (m3, a3) = spec_step(m2, SendEventView::SessionEnded, d3);
            &&& m3.phase is Done
            &&& a3 == SendActionView::Reply(
                A2aReplyView::Task(
                    task_reply(m.id, m.phase->AwaitingSession_task_id, state_for_status(status), text),
                ),
            )
            &&& (state_for_status(status) == TaskState::Completed <==> status == "completed"@)
        }),
{
}

/// The message text is kept unchanged: a message with content (and a drawn
/// task id) waits for its session holding exactly the event's text and the
/// drawn id.
pub proof fn law_content_kept_unchanged(
    m: MessageSendView,
    user_text: Seq<char>,
    has_images: bool,
    cwd: Option<Seq<char>>,
    task_id: Seq<char>,
)
    requires
        m.phase is AwaitingContent,
        user_text.len() > 0 || has_images,
    ensures
        spec_step(m, SendEventView::Content { user_text, has_images, cwd }, Some(task_id)).0 == (MessageSendView {
            id: m.id,
            phase: SendPhaseView::AwaitingSession { user_text, task_id },
        }),
{
}

/// The prompt that runs is the message's own text, whole and unchanged, in
/// the session that just opened; the task keeps its id.
pub proof fn law_prompt_runs_message_text(
    m: MessageSendView,
    session_id: Seq<char>,
    draw: Option<Seq<char>>,
)
    requires
        m.phase is AwaitingSession,
    ensures
        spec_step(m, SendEventView::SessionCreated { session_id }, draw) == (
            MessageSendView {
                id: m.id,
                phase: SendPhaseView::AwaitingPrompt { session_id, task_id: m.phase->AwaitingSession_task_id },
            },
            SendActionView::RunPrompt { session_id, user_text: m.phase->AwaitingSession_user_text },
        ),
{
}

/// From the message to the prompt: the text that the prompt runs with is
/// exactly the text of the message event, whatever its length.
pub proof fn law_prompt_text_is_message_text(
    id: Option<serde_json::Value>,
    user_text: Seq<char>,
    has_images: bool,
    cwd: Option<Seq<char>>,
    task_id: Seq<char>,
    session_id: Seq<char>,
    draw: Option<Seq<char>>,
)
    requires
        user_text.len() > 0 || has_images,
    ensures
        ({
            let m0 = MessageSendView { id, phase: SendPhaseView::AwaitingContent };
            let m1 = spec_step(m0, SendEventView::Content { user_text, has_images, cwd }, Some(task_id)).0;
            spec_step(m1, SendEventView::SessionCreated { session_id }, draw).1
                == (SendActionView::RunPrompt { session_id, user_text })
        }),
{
}

/// The message parts depend on nothing but `params.message.parts`: two
/// requests whose `params.message.parts` agree give the same parts, whatever
/// else their params or messages hold (a role, metadata, other members).
pub proof fn law_parts_depend_only_on_message_parts(p1: Option<serde_json::Value>, p2: Option<serde_json::Value>)
    requires
        member_of(member_of(p1, "message"@), "parts"@) == member_of(member_of(p2, "message"@), "parts"@),
    ensures
        message_parts_spec(p1) == message_parts_spec(p2),
{
}

/// The parts are the elements of `params.message.parts` whenever that member
/// is present, and there are none when it is absent.
pub proof fn law_parts_are_message_parts(p: Option<serde_json::Value>)
    ensures
        member_of(member_of(p, "message"@), "parts"@) matches Some(v) ==> message_parts_spec(p)
            == json_array_spec(v),
        member_of(member_of(p, "message"@), "parts"@) is None ==> message_parts_spec(p) is None,
        p is None ==> message_parts_spec(p) is None && request_cwd_spec(p) is None,
{
}

/// The working directory depends on nothing but `params.metadata.cwd`, and
/// is its text whenever that member is present.
pub proof fn law_cwd_is_metadata_cwd(p1: Option<serde_json::Value>, p2: Option<serde_json::Value>)
    ensures
        member_of(member_of(p1, "metadata"@), "cwd"@) == member_of(member_of(p2, "metadata"@), "cwd"@)
            ==> request_cwd_spec(p1) == request_cwd_spec(p2),
        member_of(member_of(p1, "metadata"@), "cwd"@) matches Some(v) ==> request_cwd_spec(p1)
            == json_text_spec(v),
        member_of(member_of(p1, "metadata"@), "cwd"@) is None ==> request_cwd_spec(p1) is None,
{
}

/// A session that cannot be opened ends the exchange with an error reply
/// that carries the engine's own code and message, unchanged, and no prompt
/// runs.
pub proof fn law_session_failure_reported(
    m: MessageSendView,
    code: i64,
    message: Seq<char>,
    draw: Option<Seq<char>>,
)
    requires
        m.phase is AwaitingSession,
    ensures
        ({
            let (m1, a) = spec_step(m, SendEventView::SessionFailed { code, message }, draw);
            &&& m1.phase is Done
            &&& a matches SendActionView::Reply(A2aReplyView::Error(e)) && e.code == code && e.message == message
                && e.id == m.id && e.jsonrpc == "2.0"@
        }),
{
}

/// An exchange that has replied waits for nothing more.
pub proof fn law_done_is_final(id: Option<serde_json::Value>, e: SendEventView)
    ensures
        !accepts(MessageSendView { id, phase: SendPhaseView::Done }, e),
{
}

/// An optional JSON value seen through its reference.
pub open spec fn deref_json(v: Option<&serde_json::Value>) -> Option<serde_json::Value> {
    match v {
        Some(x) => Some(*x),
        None => None,
    }
}

/// The member `key` of an optional JSON value.
pub open spec fn member_of(v: Option<serde_json::Value>, key: Seq<char>) -> Option<serde_json::Value> {
    match v {
        Some(x) => json_member_spec(x, key),
        None => None,
    }
}

/// The parts of a `message/send` request: `params.message.parts` when it is
/// an array. Absent params read as an empty object, so they give `None`.
pub open spec fn message_parts_spec(params: Option<serde_json::Value>) -> Option<Seq<serde_json::Value>> {
    match member_of(member_of(params, "message"@), "parts"@) {
        Some(p) => json_array_spec(p),
        None => None,
    }
}

/// The working directory that a `message/send` request asks for:
/// `params.metadata.cwd` when it is a string.
pub open spec fn request_cwd_spec(params: Option<serde_json::Value>) -> Option<Seq<char>> {
    match member_of(member_of(params, "metadata"@), "cwd"@) {
        Some(c) => json_text_spec(c),
        None => None,
    }
}

fn member<'a>(v: Option<&'a serde_json::Value>, key: &str) -> (r: Option<&'a serde_json::Value>)
    ensures
        deref_json(r) == member_of(deref_json(v), key@),
{
    match v {
        Some(x) => json_member(x, key),
        None => None,
    }
}

/// What the engine work of `message/send` starts from: the message parts of
/// the request (handed to the engine to read text and images from) and the
/// requested working directory, as the request's params give them.
pub fn send_inputs<'a>(params: Option<&'a serde_json::Value>) -> (r: (
    Option<&'a Vec<serde_json::Value>>,
    Option<String>,
))
    ensures
        match r.0 {
            Some(a) => message_parts_spec(deref_json(params)) == Some(a@),
            None => message_parts_spec(deref_json(params)) is None,
        },
        opt_view(r.1) == request_cwd_spec(deref_json(params)),
{
    let parts_value = member(member(params, "message"), "parts");
    let parts = match parts_value {
        Some(p) => json_array(p),
        None => None,
    };
    let cwd_value = member(member(params, "metadata"), "cwd");
    let cwd = match cwd_value {
        Some(c) => match json_text(c) {
            Some(t) => Some(String::from_str(t)),
            None => None,
        },
        None => None,
    };
    (parts, cwd)
}

/// A fresh random task id, or `None` when the system offers no randomness.
fn new_task_id() -> (r: Option<String>)
    ensures
        r matches Some(t) ==> is_uuid_v4_text(t@),
{
    match random_bytes() {
        Some(bytes) => Some(uuid_v4_text(bytes)),
        None => None,
    }
}

fn copy_text(s: &String) -> (r: String)
    ensures
        r@ == s@,
{
    s.clone()
}

impl MessageSend {
    /// A new exchange for the request with id `id`.
    pub fn new(id: Option<serde_json::Value>) -> (r: MessageSend)
        ensures
            r@ == (MessageSendView { id, phase: SendPhaseView::AwaitingContent }),
    {
        MessageSend { id, phase: SendPhase::AwaitingContent }
    }

    /// Whether the exchange waits for `event` now.
    pub fn accepts(&self, event: &SendEvent) -> (r: bool)
        ensures
            r == accepts(self@, event@),
    {
        match (&self.phase, event) {
            (SendPhase::AwaitingContent, SendEvent::Content { .. }) => true,
            (SendPhase::AwaitingSession { .. }, SendEvent::SessionCreated { .. }) => true,
            (SendPhase::AwaitingSession { .. }, SendEvent::SessionFailed { .. }) => true,
            (SendPhase::AwaitingPrompt { .. }, SendEvent::PromptFinished { .. }) => true,
            (SendPhase::AwaitingEnd { .. }, SendEvent::SessionEnded) => true,
            _ => false,
        }
    }

    /// One step, with `task_id` as the task id drawn for a message with
    /// content (`None` when none could be drawn).
    pub fn step_with_task_id(self, event: SendEvent, task_id: Option<String>) -> (r: (MessageSend, SendAction))
        requires
            accepts(self@, event@),
        ensures
            (r.0@, r.1@) == spec_step(self@, event@, opt_view(task_id)),
    {
        let MessageSend { id, phase } = self;
        match (phase, event) {
            (SendPhase::AwaitingContent, SendEvent::Content { user_text, has_images, cwd }) => {
                if user_text.unicode_len() == 0 && !has_images {
                    let message = String::from_str(
                        "Missing or empty message — expected at least one text or image part",
                    );
                    let id_ref = match &id {
                        Some(v) => Some(v),
                        None => None,
                    };
                    let reply = jsonrpc_error(id_ref, INVALID_PARAMS, message.as_str());
                    (MessageSend { id, phase: SendPhase::Done }, SendAction::Reply(A2aReply::Error(reply)))
                } else {
                    match task_id {
                        Some(task_id) => {
                            let cwd = match cwd {
                                Some(c) => c,
                                None => String::from_str("/tmp"),
                            };
                            (
                                MessageSend { id, phase: SendPhase::AwaitingSession { user_text, task_id } },
                                SendAction::CreateSession { cwd },
                            )
                        },
                        None => {
                            let message = String::from_str("Could not draw a random task id");
                            let id_ref = match &id {
                                Some(v) => Some(v),
                                None => None,
                            };
                            let reply = jsonrpc_error(id_ref, INTERNAL_ERROR, message.as_str());
                            (MessageSend { id, phase: SendPhase::Done }, SendAction::Reply(A2aReply::Error(reply)))
                        },
                    }
                }
            },
            (SendPhase::AwaitingSession { user_text, task_id }, SendEvent::SessionCreated { session_id }) => {
                let sid = copy_text(&session_id);
                (
                    MessageSend { id, phase: SendPhase::AwaitingPrompt { session_id, task_id } },
                    SendAction::RunPrompt { session_id: sid, user_text },
                )
            },
            (SendPhase::AwaitingSession { .. }, SendEvent::SessionFailed { code, message }) => {
                let id_ref = match &id {
                    Some(v) => Some(v),
                    None => None,
                };
                let reply = jsonrpc_error(id_ref, code, message.as_str());
                (MessageSend { id, phase: SendPhase::Done }, SendAction::Reply(A2aReply::Error(reply)))
            },
            (
                SendPhase::AwaitingPrompt { session_id, task_id: tid },
                SendEvent::PromptFinished { status, text },
            ) => {
                let state = TaskState::from_prompt_status(status.as_str());
                (
                    MessageSend { id, phase: SendPhase::AwaitingEnd { task_id: tid, state, text } },
                    SendAction::EndSession { session_id },
                )
            },
            (SendPhase::AwaitingEnd { task_id: tid, state, text }, SendEvent::SessionEnded) => {
                let reply_id = match &id {
                    Some(v) => Some(clone_json(v)),
                    None => None,
                };
                let part = A2aPart { kind: String::from_str("text"), text };
                let mut parts: Vec<A2aPart> = Vec::new();
                parts.push(part);
                let mut artifacts: Vec<TaskArtifact> = Vec::new();
                artifacts.push(TaskArtifact { parts });
                let task = A2aTask { id: tid, status: TaskStatus { state }, artifacts };
                proof {
                    assert(task@.artifacts =~= seq![
                        TaskArtifactView { parts: seq![A2aPartView { kind: "text"@, text: text@ }] },
                    ]) by {
                        assert(artifacts@[0]@.parts =~= seq![A2aPartView { kind: "text"@, text: text@ }]);
                    }
                }
                let reply = JsonRpcTaskResult { jsonrpc: String::from_str("2.0"), id: reply_id, result: task };
                (MessageSend { id, phase: SendPhase::Done }, SendAction::Reply(A2aReply::Task(reply)))
            },
            (phase, _) => {
                proof {
                    assert(false);
                }
                (MessageSend { id, phase }, SendAction::EndSession { session_id: String::new() })
            },
        }
    }

    /// One step. When a message with content arrives, the task gets a fresh
    /// random id before any session is asked for (see `new_task_id`); if no
    /// id can be drawn the request is answered with an internal error.
    /// Otherwise nothing is drawn.
    pub fn step(self, event: SendEvent) -> (r: (MessageSend, SendAction))
        requires
            accepts(self@, event@),
        ensures
            (r.0@, r.1@) == spec_step(self@, event@, drawn_task_id(r.0@.phase)),
            draws_task_id(self@, event@) ==> (drawn_task_id(r.0@.phase) matches Some(t) ==> is_uuid_v4_text(t)),
    {
        let draws = match (&self.phase, &event) {
            (SendPhase::AwaitingContent, SendEvent::Content { user_text, has_images, .. }) => {
                user_text.unicode_len() != 0 || *has_images
            },
            _ => false,
        };
        let task_id = if draws {
            new_task_id()
        } else {
            None
        };
        self.step_with_task_id(event, task_id)
    }
}

} // verus!
