//! The app's side of the protocol: the state of the handle on the sidecar
//! process, the request lines it writes, and what it makes of each reply.
//!
//! The process itself (spawning it, writing to its pipe, waiting for a reply
//! with a deadline, killing it) is outside work that the caller performs; each
//! step here takes what that work came to and decides the next state and the
//! result.

use vstd::prelude::*;
use vstd::string::StringExecFns;
use crate::json::{
    bool_text, decimal, json_number, json_quoted, json_reply_fields, json_string, opt_decimal,
    opt_member, push_number_member, read_reply_fields, ReplyFields,
};
use crate::text::{trim, trimmed};

verus! {

/// How long, in seconds, to wait for a reply before declaring the sidecar
/// wedged.
pub const REPLY_TIMEOUT_SECS: u64 = 120;

/// How the loaded model expects to be prompted.
#[derive(Clone, Copy, Debug, PartialEq, Eq, Structural)]
pub enum PromptStyle {
    /// A general-purpose model, sent the full instruction prompt.
    Instructed,
    /// A chat model fine-tuned for editing, sent an empty system turn.
    ChatTuned,
    /// A base model fine-tuned on the Alpaca prompt, sent as one turn.
    Alpaca,
}

/// What an attempt to start the process came to, when it was not running.
#[derive(Debug)]
pub enum Launch {
    /// The binary is not a file.
    Missing,
    /// Spawning failed with this error.
    SpawnFailed(String),
    /// The child came up without a standard input pipe.
    StdinUnavailable,
    /// The child came up without a standard output pipe.
    StdoutUnavailable,
    /// The child is up with both pipes.
    Started,
}

/// What sending one request line to a running process came to.
#[derive(Debug)]
pub enum Delivery {
    /// Writing the line failed with this error.
    WriteFailed(String),
    /// Flushing the pipe failed with this error.
    FlushFailed(String),
    /// No reply came within `REPLY_TIMEOUT_SECS`; the process was killed.
    TimedOut,
    /// The reply channel closed: the process died.
    Disconnected,
    /// This reply line came back.
    Replied(String),
}

/// Why a request to the sidecar failed.
#[derive(Debug)]
pub enum ClientError {
    NotFound { exe: String },
    SpawnFailed { exe: String, detail: String },
    StdinUnavailable,
    StdoutUnavailable,
    NotRunning,
    WriteFailed { detail: String },
    FlushFailed { detail: String },
    TimedOut,
    Exited,
    MalformedReply,
    /// The sidecar answered `ok: false`; its `error` text, or a stand-in.
    Refused { message: String },
    NoText,
}

/// A `ClientError` as a mathematical value.
pub enum ClientErrorView {
    NotFound { exe: Seq<char> },
    SpawnFailed { exe: Seq<char>, detail: Seq<char> },
    StdinUnavailable,
    StdoutUnavailable,
    NotRunning,
    WriteFailed { detail: Seq<char> },
    FlushFailed { detail: Seq<char> },
    TimedOut,
    Exited,
    MalformedReply,
    Refused { message: Seq<char> },
    NoText,
}

impl View for ClientError {
    type V = ClientErrorView;

    open spec fn view(&self) -> ClientErrorView {
        match self {
            ClientError::NotFound { exe } => ClientErrorView::NotFound { exe: exe@ },
            ClientError::SpawnFailed { exe, detail } => ClientErrorView::SpawnFailed {
                exe: exe@,
                detail: detail@,
            },
            ClientError::StdinUnavailable => ClientErrorView::StdinUnavailable,
            ClientError::StdoutUnavailable => ClientErrorView::StdoutUnavailable,
            ClientError::NotRunning => ClientErrorView::NotRunning,
            ClientError::WriteFailed { detail } => ClientErrorView::WriteFailed { detail: detail@ },
            ClientError::FlushFailed { detail } => ClientErrorView::FlushFailed { detail: detail@ },
            ClientError::TimedOut => ClientErrorView::TimedOut,
            ClientError::Exited => ClientErrorView::Exited,
            ClientError::MalformedReply => ClientErrorView::MalformedReply,
            ClientError::Refused { message } => ClientErrorView::Refused { message: message@ },
            ClientError::NoText => ClientErrorView::NoText,
        }
    }
}

/// The text of an error, as it is shown to the user.
pub open spec fn error_message(e: ClientErrorView) -> Seq<char> {
    match e {
        ClientErrorView::NotFound { exe } => "sidecar binary not found at "@ + exe,
        ClientErrorView::SpawnFailed { exe, .. } => "failed to start sidecar at "@ + exe,
        ClientErrorView::StdinUnavailable => "sidecar stdin unavailable"@,
        ClientErrorView::StdoutUnavailable => "sidecar stdout unavailable"@,
        ClientErrorView::NotRunning => "sidecar is not running"@,
        ClientErrorView::WriteFailed { .. } => "failed to write to sidecar"@,
        ClientErrorView::FlushFailed { .. } => "failed to flush to sidecar"@,
        ClientErrorView::TimedOut => "sidecar timed out after 120s"@,
        ClientErrorView::Exited => "sidecar exited unexpectedly"@,
        ClientErrorView::MalformedReply => "sidecar sent malformed JSON"@,
        ClientErrorView::Refused { message } => message,
        ClientErrorView::NoText => "sidecar reply had no text"@,
    }
}

impl ClientError {
    /// The text of the error, as it is shown to the user.
    pub fn message(&self) -> (res: String)
        ensures
            res@ == error_message(self@),
    {
        match self {
            ClientError::NotFound { exe } => {
                let mut m = String::from_str("sidecar binary not found at ");
                m.append(exe.as_str());
                m
            },
            ClientError::SpawnFailed { exe, .. } => {
                let mut m = String::from_str("failed to start sidecar at ");
                m.append(exe.as_str());
                m
            },
            ClientError::StdinUnavailable => String::from_str("sidecar stdin unavailable"),
            ClientError::StdoutUnavailable => String::from_str("sidecar stdout unavailable"),
            ClientError::NotRunning => String::from_str("sidecar is not running"),
            ClientError::WriteFailed { .. } => String::from_str("failed to write to sidecar"),
            ClientError::FlushFailed { .. } => String::from_str("failed to flush to sidecar"),
            ClientError::TimedOut => String::from_str("sidecar timed out after 120s"),
            ClientError::Exited => String::from_str("sidecar exited unexpectedly"),
            ClientError::MalformedReply => String::from_str("sidecar sent malformed JSON"),
            ClientError::Refused { message } => message.clone(),
            ClientError::NoText => String::from_str("sidecar reply had no text"),
        }
    }
}

/// A failed load: the model that was asked for and why.
#[derive(Debug)]
pub struct LoadError {
    pub model: String,
    pub cause: ClientError,
}

impl LoadError {
    /// The text of the error, as it is shown to the user.
    pub fn message(&self) -> (res: String)
        ensures
            res@ == "failed to load "@ + self.model@,
    {
        let mut m = String::from_str("failed to load ");
        m.append(self.model.as_str());
        m
    }
}

/// The members of a reply as a mathematical value.
pub type FieldsView = (Option<bool>, Option<Seq<char>>, Option<Seq<char>>);

/// A result of the client as a result of views.
pub open spec fn result_view<T: View>(r: Result<T, ClientError>) -> Result<T::V, ClientErrorView> {
    match r {
        Ok(t) => Ok(t@),
        Err(e) => Err(e@),
    }
}

/// What a reply document means: it must parse, and its `ok` member must be
/// `true`; otherwise its `error` member, or `unknown sidecar error`, is the
/// failure.
pub open spec fn reply_outcome(fields: Option<FieldsView>) -> Result<FieldsView, ClientErrorView> {
    match fields {
        None => Err(ClientErrorView::MalformedReply),
        Some(f) => if f.0 == Some(true) {
            Ok(f)
        } else {
            Err(
                ClientErrorView::Refused {
                    message: match f.1 {
                        Some(m) => m,
                        None => "unknown sidecar error"@,
                    },
                },
            )
        },
    }
}

/// Decides a parsed reply: accepted when `ok` is `true`, refused otherwise,
/// malformed when it did not parse.
pub fn interpret_reply(fields: Option<ReplyFields>) -> (res: Result<ReplyFields, ClientError>)
    ensures
        result_view(res) == reply_outcome(
            match fields {
                Some(f) => Some(f@),
                None => None,
            },
        ),
{
    match fields {
        None => Err(ClientError::MalformedReply),
        Some(f) => {
            if f.ok == Some(true) {
                Ok(f)
            } else {
                let message = match f.error {
                    Some(m) => m,
                    None => String::from_str("unknown sidecar error"),
                };
                Err(ClientError::Refused { message })
            }
        },
    }
}

/// The outcome of a reply line: trimmed, parsed, then decided.
pub open spec fn line_outcome(line: Seq<char>) -> Result<FieldsView, ClientErrorView> {
    reply_outcome(json_reply_fields(trimmed(line)))
}

/// The request line that loads `path`, offloading `gpu_layers` layers where
/// given.
pub open spec fn load_line(id: u64, path: Seq<char>, gpu_layers: Option<u32>) -> Seq<char> {
    "{\"cmd\":\"load\",\"id\":"@ + decimal(id as nat) + ",\"path\":"@ + json_quoted(path)
        + opt_member(
        "gpu_layers"@,
        opt_decimal(
            match gpu_layers {
                Some(n) => Some(n as u64),
                None => None,
            },
        ),
    ) + "}"@
}

/// The request line that drops the model.
pub open spec fn unload_line(id: u64) -> Seq<char> {
    "{\"cmd\":\"unload\",\"id\":"@ + decimal(id as nat) + "}"@
}

/// The request line that stops the process.
pub open spec fn shutdown_line(id: u64) -> Seq<char> {
    "{\"cmd\":\"shutdown\",\"id\":"@ + decimal(id as nat) + "}"@
}

/// The request line that generates from `system` and `user`.
pub open spec fn generate_line(
    id: u64,
    system: Seq<char>,
    user: Seq<char>,
    max_tokens: usize,
    no_think: bool,
) -> Seq<char> {
    "{\"cmd\":\"generate\",\"id\":"@ + decimal(id as nat) + ",\"system\":"@ + json_quoted(system)
        + ",\"user\":"@ + json_quoted(user) + ",\"max_tokens\":"@ + decimal(max_tokens as nat)
        + ",\"no_think\":"@ + bool_text(no_think) + "}"@
}

/// The id after `id`: request ids count up by one and wrap at `u64::MAX`.
pub open spec fn next_id_after(id: u64) -> u64 {
    if id == u64::MAX {
        0
    } else {
        (id + 1) as u64
    }
}

/// The handle on the inference sidecar.
pub struct SidecarClient {
    exe: String,
    running: bool,
    loaded: Option<String>,
    next_id: u64,
    reasoning: bool,
    prompt_style: PromptStyle,
}

/// The handle as a mathematical value.
pub struct ClientView {
    /// Where the sidecar binary is.
    pub exe: Seq<char>,
    /// Whether the process is up.
    pub running: bool,
    /// The model currently loaded, if any.
    pub loaded: Option<Seq<char>>,
    /// The id the next request will carry.
    pub next_id: u64,
    /// Whether the loaded model deliberates and needs the soft switch.
    pub reasoning: bool,
    /// How the loaded model expects to be prompted.
    pub prompt_style: PromptStyle,
}

impl View for SidecarClient {
    type V = ClientView;

    closed spec fn view(&self) -> ClientView {
        ClientView {
            exe: self.exe@,
            running: self.running,
            loaded: self.loaded.deep_view(),
            next_id: self.next_id,
            reasoning: self.reasoning,
            prompt_style: self.prompt_style,
        }
    }
}

/// The ids that `n` successive requests leave behind, starting from `id`.
pub open spec fn ids_after(id: u64, n: nat) -> u64
    decreases n,
{
    if n == 0 {
        id
    } else {
        next_id_after(ids_after(id, (n - 1) as nat))
    }
}

/// The handle after taking a request id.
pub open spec fn with_next_id(v: ClientView) -> ClientView {
    ClientView { next_id: next_id_after(v.next_id), ..v }
}

/// The handle once the process is up.
pub open spec fn started(v: ClientView) -> ClientView {
    ClientView { running: true, ..v }
}

/// The handle once the process is gone: it is not running.
pub open spec fn stopped(v: ClientView) -> ClientView {
    ClientView { running: false, ..v }
}

/// The handle once a process that timed out or died has been given up on:
/// it is not running, and the model it held is gone with it.
pub open spec fn given_up(v: ClientView) -> ClientView {
    ClientView { running: false, loaded: None, ..v }
}

/// The handle once `model` is loaded.
pub open spec fn loaded(v: ClientView, model: Seq<char>, reasoning: bool, prompt_style: PromptStyle) -> ClientView {
    ClientView { loaded: Some(model), reasoning, prompt_style, ..v }
}

/// The handle once no model is loaded.
pub open spec fn unloaded(v: ClientView) -> ClientView {
    ClientView { loaded: None, ..v }
}

/// A fresh handle on the binary at `exe`: not running, no model loaded, the
/// first request id 1, the instructed prompt style.
pub open spec fn initial(exe: Seq<char>) -> ClientView {
    ClientView {
        exe,
        running: false,
        loaded: None,
        next_id: 1,
        reasoning: false,
        prompt_style: PromptStyle::Instructed,
    }
}

/// A change of the handle's state, as the operations make it: taking a
/// request id (`next_request_id`, and the command builders that send a
/// line), starting the process (`ensure_started` with `Launch::Started`),
/// giving it up (`request` on a timeout or a dead process), a successful load
/// (`load_model`), dropping the model (`unload_model`, `unload_command` on a
/// stopped handle) and a shutdown. Every other outcome leaves the handle as
/// it was.
pub enum Step {
    TakeId,
    Start,
    GiveUp,
    Load { model: Seq<char>, reasoning: bool, prompt_style: PromptStyle },
    Unload,
    Shutdown,
}

/// The handle after one step; each case is the state that the operation's
/// contract gives.
pub open spec fn apply(v: ClientView, step: Step) -> ClientView {
    match step {
        Step::TakeId => with_next_id(v),
        Step::Start => started(v),
        Step::GiveUp => given_up(v),
        Step::Load { model, reasoning, prompt_style } => loaded(v, model, reasoning, prompt_style),
        Step::Unload => unloaded(v),
        Step::Shutdown => shut_down(v),
    }
}

/// The handle after `steps`, taken in order from `v`.
pub open spec fn replay(v: ClientView, steps: Seq<Step>) -> ClientView
    decreases steps.len(),
{
    if steps.len() == 0 {
        v
    } else {
        apply(replay(v, steps.drop_last()), steps.last())
    }
}

/// Whether a load of `model` is skipped: a model is loaded and it is `model`,
/// by `Path` equality (which holds of equal strings).
pub open spec fn load_skipped(v: ClientView, model: Seq<char>) -> bool {
    v.loaded matches Some(cur) && (cur == model || paths_equal(cur, model))
}

/// The handle after a shutdown: the process stopped (a running one was sent
/// a request, which took an id) and no model loaded.
pub open spec fn shut_down(v: ClientView) -> ClientView {
    if v.running {
        unloaded(stopped(with_next_id(v)))
    } else {
        unloaded(v)
    }
}

/// Whether `std::path::Path` equality holds between the paths `a` and `b`.
/// It compares the paths component by component, by the path syntax of the
/// platform the library is built for, and depends on nothing else.
pub uninterp spec fn paths_equal(a: Seq<char>, b: Seq<char>) -> bool;

/// Whether `a` and `b` name the same path, by `<Path as PartialEq>::eq`
/// (which compares components).
///
/// The contract names the result `paths_equal` of the two strings, and states
/// that it holds of two equal strings (`Path` implements `Eq`, so equality is
/// reflexive). Which other pairs compare equal is left to the name: it
/// depends on the platform's path syntax.
#[verifier::external_body]
fn same_path(a: &str, b: &str) -> (res: bool)
    ensures
        res == paths_equal(a@, b@),
        a@ == b@ ==> res,
{
    std::path::Path::new(a) == std::path::Path::new(b)
}

impl SidecarClient {
    /// A handle on the binary at `exe`, without starting it.
    pub fn new(exe: String) -> (res: SidecarClient)
        ensures
            res@ == initial(exe@),
    {
        SidecarClient {
            exe,
            running: false,
            loaded: None,
            next_id: 1,
            reasoning: false,
            prompt_style: PromptStyle::Instructed,
        }
    }

    /// Where the sidecar binary is.
    pub fn exe(&self) -> (res: &str)
        ensures
            res@ == self@.exe,
    {
        self.exe.as_str()
    }

    /// Whether the process is running.
    pub fn is_running(&self) -> (res: bool)
        ensures
            res == self@.running,
    {
        self.running
    }

    /// Path of the model currently loaded, if any.
    pub fn loaded_model(&self) -> (res: Option<String>)
        ensures
            res.deep_view() == self@.loaded,
    {
        match &self.loaded {
            Some(m) => Some(m.clone()),
            None => None,
        }
    }

    /// Whether a model is loaded.
    pub fn is_ready(&self) -> (res: bool)
        ensures
            res == self@.loaded is Some,
    {
        self.loaded.is_some()
    }

    /// How the loaded model expects to be prompted.
    pub fn prompt_style(&self) -> (res: PromptStyle)
        ensures
            res == self@.prompt_style,
    {
        self.prompt_style
    }

    /// Whether the loaded model deliberates and needs the soft switch.
    pub fn reasoning(&self) -> (res: bool)
        ensures
            res == self@.reasoning,
    {
        self.reasoning
    }

    /// Takes the id for the next request.
    pub fn next_request_id(&mut self) -> (res: u64)
        ensures
            res == old(self)@.next_id,
            final(self)@ == with_next_id(old(self)@),
    {
        let id = self.next_id;
        self.next_id = if id == u64::MAX {
            0
        } else {
            id + 1
        };
        id
    }

    /// Makes sure the process is running. When it already is, `launch` is not
    /// read; otherwise `launch` is what the attempt to start it came to.
    pub fn ensure_started(&mut self, launch: Launch) -> (res: Result<(), ClientError>)
        ensures
            old(self)@.running ==> res is Ok && final(self)@ == old(self)@,
            !old(self)@.running ==> match launch {
                Launch::Missing => result_view(res) == Err::<(), ClientErrorView>(
                    ClientErrorView::NotFound { exe: old(self)@.exe },
                ) && final(self)@ == old(self)@,
                Launch::SpawnFailed(d) => result_view(res) == Err::<(), ClientErrorView>(
                    ClientErrorView::SpawnFailed { exe: old(self)@.exe, detail: d@ },
                ) && final(self)@ == old(self)@,
                Launch::StdinUnavailable => result_view(res) == Err::<(), ClientErrorView>(
                    ClientErrorView::StdinUnavailable,
                ) && final(self)@ == old(self)@,
                Launch::StdoutUnavailable => result_view(res) == Err::<(), ClientErrorView>(
                    ClientErrorView::StdoutUnavailable,
                ) && final(self)@ == old(self)@,
                Launch::Started => res is Ok && final(self)@ == started(old(self)@),
            },
    {
        if self.running {
            return Ok(());
        }
        match launch {
            Launch::Missing => Err(ClientError::NotFound { exe: self.exe.clone() }),
            Launch::SpawnFailed(detail) => Err(
                ClientError::SpawnFailed { exe: self.exe.clone(), detail },
            ),
            Launch::StdinUnavailable => Err(ClientError::StdinUnavailable),
            Launch::StdoutUnavailable => Err(ClientError::StdoutUnavailable),
            Launch::Started => {
                self.running = true;
                Ok(())
            },
        }
    }

    /// Reads what sending one request came to. A process that timed out or
    /// died is given up on, together with the model it held, so the next
    /// request starts a fresh process with no model loaded; a reply
    /// is trimmed, parsed and decided by `interpret_reply`.
    pub fn request(&mut self, delivery: Delivery) -> (res: Result<ReplyFields, ClientError>)
        ensures
            !old(self)@.running ==> result_view(res) == Err::<FieldsView, ClientErrorView>(
                ClientErrorView::NotRunning,
            ) && final(self)@ == old(self)@,
            old(self)@.running ==> match delivery {
                Delivery::WriteFailed(d) => result_view(res) == Err::<
                    FieldsView,
                    ClientErrorView,
                >(ClientErrorView::WriteFailed { detail: d@ }) && final(self)@ == old(self)@,
                Delivery::FlushFailed(d) => result_view(res) == Err::<
                    FieldsView,
                    ClientErrorView,
                >(ClientErrorView::FlushFailed { detail: d@ }) && final(self)@ == old(self)@,
                Delivery::TimedOut => result_view(res) == Err::<FieldsView, ClientErrorView>(
                    ClientErrorView::TimedOut,
                ) && final(self)@ == given_up(old(self)@),
                Delivery::Disconnected => result_view(res) == Err::<FieldsView, ClientErrorView>(
                    ClientErrorView::Exited,
                ) && final(self)@ == given_up(old(self)@),
                Delivery::Replied(line) => result_view(res) == line_outcome(line@) && final(self)@
                    == old(self)@,
            },
            res is Ok ==> final(self)@.running,
    {
        if !self.running {
            return Err(ClientError::NotRunning);
        }
        match delivery {
            Delivery::WriteFailed(detail) => Err(ClientError::WriteFailed { detail }),
            Delivery::FlushFailed(detail) => Err(ClientError::FlushFailed { detail }),
            Delivery::TimedOut => {
                self.running = false;
                self.loaded = None;
                Err(ClientError::TimedOut)
            },
            Delivery::Disconnected => {
                self.running = false;
                self.loaded = None;
                Err(ClientError::Exited)
            },
            Delivery::Replied(line) => {
                let text = trim(line.as_str());
                let fields = read_reply_fields(text);
                interpret_reply(fields)
            },
        }
    }

    /// The line that loads `model`, with a fresh id, or none when `model` is
    /// already loaded (`already_loaded`, which the caller found by comparing
    /// paths): loading the model that is already loaded is a no-op and takes
    /// no id.
    pub fn prepare_load(&mut self, already_loaded: bool, model: &str, gpu_layers: Option<u32>) -> (res: Option<String>)
        ensures
            already_loaded ==> res is None && final(self)@ == old(self)@,
            !already_loaded ==> match res {
                Some(line) => line@ == load_line(old(self)@.next_id, model@, gpu_layers)
                    && final(self)@ == with_next_id(old(self)@),
                None => false,
            },
    {
        if already_loaded {
            return None;
        }
        let id = self.next_request_id();
        Some(encode_load(id, model, gpu_layers))
    }

    /// The line that loads `model`, with a fresh id, or none when the model
    /// loaded is `model` already (by `std::path::Path` equality): loading the
    /// model that is already loaded is a no-op.
    pub fn load_command(&mut self, model: &str, gpu_layers: Option<u32>) -> (res: Option<String>)
        ensures
            res is None <==> (old(self)@.loaded matches Some(cur) && paths_equal(cur, model@)),
            res is None <==> load_skipped(old(self)@, model@),
            res is None ==> final(self)@ == old(self)@,
            res matches Some(line) ==> line@ == load_line(old(self)@.next_id, model@, gpu_layers)
                && final(self)@ == with_next_id(old(self)@),
    {
        let already: bool = match &self.loaded {
            Some(current) => same_path(current.as_str(), model),
            None => false,
        };
        self.prepare_load(already, model, gpu_layers)
    }

    /// Records the outcome of loading `model`: on success the model, its
    /// prompt style and whether it deliberates become the handle's; on
    /// failure nothing changes and the error names the model.
    pub fn load_model(
        &mut self,
        model: String,
        reasoning: bool,
        prompt_style: PromptStyle,
        reply: Result<ReplyFields, ClientError>,
    ) -> (res: Result<(), LoadError>)
        ensures
            reply is Ok ==> res is Ok && final(self)@ == loaded(old(self)@, model@, reasoning, prompt_style),
            reply matches Err(e) ==> final(self)@ == old(self)@ && match res {
                Err(le) => le.model@ == model@ && le.cause@ == e@,
                Ok(_) => false,
            },
    {
        match reply {
            Err(cause) => Err(LoadError { model, cause }),
            Ok(_) => {
                self.loaded = Some(model);
                self.prompt_style = prompt_style;
                self.reasoning = reasoning;
                Ok(())
            },
        }
    }

    /// The line that drops the model, with a fresh id, or none when the
    /// process is not running: then no process holds a model, nothing is
    /// sent, and the handle records none.
    pub fn unload_command(&mut self) -> (res: Option<String>)
        ensures
            !old(self)@.running ==> res is None && final(self)@ == unloaded(old(self)@),
            old(self)@.running ==> match res {
                Some(line) => line@ == unload_line(old(self)@.next_id) && final(self)@ == with_next_id(
                    old(self)@,
                ),
                None => false,
            },
    {
        if !self.running {
            self.loaded = None;
            return None;
        }
        let id = self.next_request_id();
        Some(encode_plain("{\"cmd\":\"unload\",\"id\":", id))
    }

    /// Records the outcome of unloading: whatever the sidecar answered, no
    /// model is loaded any more. A failure is handed back to be reported.
    pub fn unload_model(&mut self, reply: Result<ReplyFields, ClientError>) -> (res: Result<(), ClientError>)
        ensures
            final(self)@ == unloaded(old(self)@),
            match reply {
                Ok(_) => res is Ok,
                Err(e) => result_view(res) == Err::<(), ClientErrorView>(e@),
            },
    {
        self.loaded = None;
        match reply {
            Ok(_) => Ok(()),
            Err(e) => Err(e),
        }
    }

    /// Stops the process and forgets the model. When the process was
    /// running, the line that asks it to stop (with a fresh id) is returned,
    /// to be written before the process is killed.
    pub fn shutdown(&mut self) -> (res: Option<String>)
        ensures
            final(self)@ == shut_down(old(self)@),
            !old(self)@.running ==> res is None,
            old(self)@.running ==> (res matches Some(line) && line@ == shutdown_line(
                old(self)@.next_id,
            )),
    {
        let line = if self.running {
            let id = self.next_request_id();
            self.running = false;
            Some(encode_plain("{\"cmd\":\"shutdown\",\"id\":", id))
        } else {
            None
        };
        self.loaded = None;
        line
    }

    /// The line that generates from `system` and `user` within `max_tokens`
    /// tokens, with a fresh id; the soft switch is asked for when the loaded
    /// model deliberates.
    pub fn generate_command(&mut self, system: &str, user: &str, max_tokens: usize) -> (res: String)
        ensures
            res@ == generate_line(old(self)@.next_id, system@, user@, max_tokens, old(self)@.reasoning),
            final(self)@ == with_next_id(old(self)@),
    {
        let no_think = self.reasoning;
        let id = self.next_request_id();
        encode_generate(id, system, user, max_tokens, no_think)
    }

    /// The generated text of an accepted reply; a reply without text is an
    /// error.
    pub fn generate(&self, reply: Result<ReplyFields, ClientError>) -> (res: Result<String, ClientError>)
        ensures
            match reply {
                Ok(f) => match f.text {
                    Some(t) => res matches Ok(r) && r@ == t@,
                    None => result_view(res) == Err::<Seq<char>, ClientErrorView>(ClientErrorView::NoText),
                },
                Err(e) => result_view(res) == Err::<Seq<char>, ClientErrorView>(e@),
            },
    {
        match reply {
            Ok(f) => match f.text {
                Some(t) => Ok(t),
                None => Err(ClientError::NoText),
            },
            Err(e) => Err(e),
        }
    }
}

/// `head` followed by the decimal `id` and a closing brace.
fn encode_plain(head: &str, id: u64) -> (res: String)
    ensures
        res@ == head@ + decimal(id as nat) + "}"@,
{
    let mut out = String::from_str(head);
    let n = json_number(id);
    out.append(n.as_str());
    out.append("}");
    out
}

/// The load request line.
fn encode_load(id: u64, path: &str, gpu_layers: Option<u32>) -> (res: String)
    ensures
        res@ == load_line(id, path@, gpu_layers),
{
    let mut out = String::from_str("{\"cmd\":\"load\",\"id\":");
    let n = json_number(id);
    out.append(n.as_str());
    out.append(",\"path\":");
    let p = json_string(path);
    out.append(p.as_str());
    let g: Option<u64> = match gpu_layers {
        Some(k) => Some(k as u64),
        None => None,
    };
    push_number_member(&mut out, "gpu_layers", g);
    out.append("}");
    out
}

/// The generate request line.
fn encode_generate(id: u64, system: &str, user: &str, max_tokens: usize, no_think: bool) -> (res: String)
    ensures
        res@ == generate_line(id, system@, user@, max_tokens, no_think),
{
    let mut out = String::from_str("{\"cmd\":\"generate\",\"id\":");
    let n = json_number(id);
    out.append(n.as_str());
    out.append(",\"system\":");
    let s = json_string(system);
    out.append(s.as_str());
    out.append(",\"user\":");
    let u = json_string(user);
    out.append(u.as_str());
    out.append(",\"max_tokens\":");
    let m = json_number(max_tokens as u64);
    out.append(m.as_str());
    out.append(",\"no_think\":");
    if no_think {
        out.append("true");
    } else {
        out.append("false");
    }
    out.append("}");
    assert(out@ =~= generate_line(id, system@, user@, max_tokens, no_think));
    out
}

} // verus!
