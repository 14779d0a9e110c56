//! The sidecar's side of the protocol: the requests it accepts, the responses
//! it writes, and the decisions of its request loop.
//!
//! One request arrives per line; each is answered by exactly one response
//! line carrying the request's id.

use vstd::prelude::*;
use vstd::string::StringExecFns;
use crate::json::{bool_text, decimal, json_number, opt_decimal, opt_member, opt_quoted, push_number_member, push_string_member};
use crate::text::{is_blank, trimmed};

verus! {

/// Cap on generated tokens when a request does not give one.
pub const DEFAULT_MAX_TOKENS: usize = 512;

/// A request read from the sidecar's standard input.
#[derive(Debug)]
pub enum Request {
    Ping { id: u64 },
    Load {
        id: u64,
        path: String,
        threads: Option<u32>,
        ctx: Option<u32>,
        gpu_layers: Option<u32>,
    },
    Generate {
        id: u64,
        system: String,
        user: String,
        max_tokens: Option<usize>,
        no_think: Option<bool>,
    },
    Unload { id: u64 },
    Shutdown { id: u64 },
}

impl Request {
    /// The id that the caller gave the request.
    pub open spec fn spec_id(&self) -> u64 {
        match self {
            Request::Ping { id } => *id,
            Request::Load { id, .. } => *id,
            Request::Generate { id, .. } => *id,
            Request::Unload { id } => *id,
            Request::Shutdown { id } => *id,
        }
    }

    /// The id that the caller gave the request.
    #[verifier::when_used_as_spec(spec_id)]
    pub fn id(&self) -> (res: u64)
        ensures
            res == self.spec_id(),
    {
        match self {
            Request::Ping { id } => *id,
            Request::Load { id, .. } => *id,
            Request::Generate { id, .. } => *id,
            Request::Unload { id } => *id,
            Request::Shutdown { id } => *id,
        }
    }
}

/// A response written to the sidecar's standard output.
#[derive(Debug)]
pub struct Response {
    pub id: u64,
    pub ok: bool,
    pub text: Option<String>,
    pub error: Option<String>,
    pub elapsed_ms: Option<u64>,
}

/// A response as a mathematical value.
pub struct ResponseView {
    pub id: u64,
    pub ok: bool,
    pub text: Option<Seq<char>>,
    pub error: Option<Seq<char>>,
    pub elapsed_ms: Option<u64>,
}

impl View for Response {
    type V = ResponseView;

    open spec fn view(&self) -> ResponseView {
        ResponseView {
            id: self.id,
            ok: self.ok,
            text: self.text.deep_view(),
            error: self.error.deep_view(),
            elapsed_ms: self.elapsed_ms,
        }
    }
}

/// The bare success answer to request `id`.
pub open spec fn ok_view(id: u64) -> ResponseView {
    ResponseView { id, ok: true, text: None, error: None, elapsed_ms: None }
}

/// The failure answer to request `id`, carrying `message`.
pub open spec fn error_view(id: u64, message: Seq<char>) -> ResponseView {
    ResponseView { id, ok: false, text: None, error: Some(message), elapsed_ms: None }
}

/// The answer to a generation: its text and how long it took.
pub open spec fn generated_view(id: u64, text: Seq<char>, elapsed_ms: u64) -> ResponseView {
    ResponseView { id, ok: true, text: Some(text), error: None, elapsed_ms: Some(elapsed_ms) }
}

impl ResponseView {
    /// A response reports success exactly when it carries no error.
    pub open spec fn well_formed(self) -> bool {
        self.ok <==> self.error is None
    }
}

impl Response {
    /// The bare success answer to request `id`.
    pub fn ok(id: u64) -> (res: Response)
        ensures
            res@ == ok_view(id),
    {
        Response { id, ok: true, text: None, error: None, elapsed_ms: None }
    }

    /// The failure answer to request `id`, carrying `message`.
    pub fn error(id: u64, message: String) -> (res: Response)
        ensures
            res@ == error_view(id, message@),
    {
        Response { id, ok: false, text: None, error: Some(message), elapsed_ms: None }
    }

    /// The answer to a generation: its text and how long it took.
    pub fn generated(id: u64, text: String, elapsed_ms: u64) -> (res: Response)
        ensures
            res@ == generated_view(id, text@, elapsed_ms),
    {
        Response { id, ok: true, text: Some(text), error: None, elapsed_ms: Some(elapsed_ms) }
    }
}

/// Work that a request hands to the inference engine.
#[derive(Debug)]
pub enum EngineJob {
    Load { path: String, threads: Option<u32>, ctx: Option<u32>, gpu_layers: Option<u32> },
    Generate { system: String, user: String, max_tokens: usize, no_think: bool },
    Unload,
}

/// The engine work that `request` calls for: none for `ping` and `shutdown`;
/// for `generate`, the token budget defaults to `DEFAULT_MAX_TOKENS` and
/// `no_think` to `false`.
pub fn engine_job(request: &Request) -> (res: Option<EngineJob>)
    ensures
        match request {
            Request::Ping { .. } | Request::Shutdown { .. } => res is None,
            Request::Load { path, threads, ctx, gpu_layers, .. } => match res {
                Some(EngineJob::Load { path: p, threads: t, ctx: c, gpu_layers: g }) => p@ == path@
                    && t == threads && c == ctx && g == gpu_layers,
                _ => false,
            },
            Request::Generate { system, user, max_tokens, no_think, .. } => match res {
                Some(EngineJob::Generate { system: s, user: u, max_tokens: m, no_think: n }) => s@
                    == system@ && u@ == user@ && m == (match max_tokens {
                    Some(b) => *b,
                    None => DEFAULT_MAX_TOKENS,
                }) && n == (match no_think {
                    Some(b) => *b,
                    None => false,
                }),
                _ => false,
            },
            Request::Unload { .. } => res matches Some(EngineJob::Unload),
        },
{
    match request {
        Request::Ping { .. } => None,
        Request::Load { path, threads, ctx, gpu_layers, .. } => Some(
            EngineJob::Load { path: path.clone(), threads: *threads, ctx: *ctx, gpu_layers: *gpu_layers },
        ),
        Request::Generate { system, user, max_tokens, no_think, .. } => {
            let budget: usize = match max_tokens {
                Some(b) => *b,
                None => DEFAULT_MAX_TOKENS,
            };
            let nt: bool = match no_think {
                Some(b) => *b,
                None => false,
            };
            Some(EngineJob::Generate { system: system.clone(), user: user.clone(), max_tokens: budget, no_think: nt })
        },
        Request::Unload { .. } => Some(EngineJob::Unload),
        Request::Shutdown { .. } => None,
    }
}

/// The response to `request`, given what its engine job gave (`outcome`;
/// for a generation the text, for a failure the engine's message) and how
/// many milliseconds the job took.
pub open spec fn handle_spec(request: Request, outcome: Result<Seq<char>, Seq<char>>, elapsed_ms: u64) -> ResponseView {
    match request {
        Request::Ping { id } => ok_view(id),
        Request::Load { id, .. } => match outcome {
            Ok(_) => ResponseView { elapsed_ms: Some(elapsed_ms), ..ok_view(id) },
            Err(e) => error_view(id, e),
        },
        Request::Generate { id, .. } => match outcome {
            Ok(t) => generated_view(id, t, elapsed_ms),
            Err(e) => error_view(id, e),
        },
        Request::Unload { id } => ok_view(id),
        Request::Shutdown { id } => ok_view(id),
    }
}

/// A result of strings as a result of their views.
pub open spec fn outcome_view(outcome: Result<String, String>) -> Result<Seq<char>, Seq<char>> {
    match outcome {
        Ok(t) => Ok(t@),
        Err(e) => Err(e@),
    }
}

/// Answers one request. `outcome` is what the request's engine job gave (see
/// `engine_job`; it is not read for requests without one), `elapsed_ms` how
/// long the job took.
pub fn handle(request: Request, outcome: Result<String, String>, elapsed_ms: u64) -> (res: Response)
    ensures
        res@ == handle_spec(request, outcome_view(outcome), elapsed_ms),
{
    match request {
        Request::Ping { id } => Response::ok(id),
        Request::Load { id, .. } => match outcome {
            Ok(_) => Response { elapsed_ms: Some(elapsed_ms), ..Response::ok(id) },
            Err(e) => Response::error(id, e),
        },
        Request::Generate { id, .. } => match outcome {
            Ok(text) => Response::generated(id, text, elapsed_ms),
            Err(e) => Response::error(id, e),
        },
        Request::Unload { id } => Response::ok(id),
        Request::Shutdown { id } => Response::ok(id),
    }
}

/// Milliseconds as a `u64`, saturating at `u64::MAX`.
pub fn elapsed_ms(millis: u128) -> (res: u64)
    ensures
        res == if millis <= u64::MAX as u128 {
            millis as u64
        } else {
            u64::MAX
        },
{
    if millis <= u64::MAX as u128 {
        millis as u64
    } else {
        u64::MAX
    }
}

/// What the request loop does with one input line.
#[derive(Debug)]
pub enum LineAction {
    /// A blank line: read the next one.
    Skip,
    /// Parse the line as a request.
    Parse,
}

/// A blank line (white space only) is skipped; any other is parsed.
pub fn classify_line(line: &str) -> (res: LineAction)
    ensures
        res is Skip <==> trimmed(line@).len() == 0,
{
    if is_blank(line) {
        LineAction::Skip
    } else {
        LineAction::Parse
    }
}

/// The answer to a line that is not a request: no id can be recovered from
/// it, so it goes to id 0.
pub fn bad_request(detail: &str) -> (res: Response)
    ensures
        res@ == error_view(0, "bad request: "@ + detail@),
{
    let mut message = String::from_str("bad request: ");
    message.append(detail);
    Response::error(0, message)
}

/// Whether `request` ends the session: a `shutdown` is answered and the loop
/// stops.
pub fn ends_session(request: &Request) -> (res: bool)
    ensures
        res <==> request is Shutdown,
{
    match request {
        Request::Shutdown { .. } => true,
        _ => false,
    }
}

/// What the request loop does with a line that was not blank.
#[derive(Debug)]
pub enum Turn {
    /// Write this response and read the next line.
    Answer(Response),
    /// Write this response and stop serving.
    Finish(Response),
    /// Run this request (see `engine_job` and `handle`), answer it, and read
    /// the next line.
    Run(Request),
}

/// One turn of the request loop, given what parsing a non-blank line gave
/// (the request, or the parser's message): a line that is not a request is
/// answered on id 0; a `shutdown` is answered and ends the loop; every other
/// request is run.
pub fn dispatch(parsed: Result<Request, String>) -> (res: Turn)
    ensures
        match parsed {
            Err(e) => res matches Turn::Answer(r) && r@ == error_view(0, "bad request: "@ + e@),
            Ok(request) => if request is Shutdown {
                res matches Turn::Finish(r) && r@ == ok_view(request.spec_id())
            } else {
                res matches Turn::Run(q) && q == request
            },
        },
{
    match parsed {
        Err(e) => Turn::Answer(bad_request(e.as_str())),
        Ok(request) => {
            if ends_session(&request) {
                let id = request.id();
                Turn::Finish(Response::ok(id))
            } else {
                Turn::Run(request)
            }
        },
    }
}

/// The JSON line of a response: `id` and `ok` always, then `text`, `error`
/// and `elapsed_ms` where present, in that order, with no white space.
pub open spec fn response_line(r: ResponseView) -> Seq<char> {
    "{\"id\":"@ + decimal(r.id as nat) + ",\"ok\":"@ + bool_text(r.ok) + opt_member(
        "text"@,
        opt_quoted(r.text),
    ) + opt_member("error"@, opt_quoted(r.error)) + opt_member(
        "elapsed_ms"@,
        opt_decimal(r.elapsed_ms),
    ) + "}"@
}

/// The response as one line of JSON (without the line break).
pub fn encode_response(r: &Response) -> (res: String)
    ensures
        res@ == response_line(r@),
{
    let mut out = String::from_str("{\"id\":");
    let id = json_number(r.id);
    out.append(id.as_str());
    out.append(",\"ok\":");
    if r.ok {
        out.append("true");
    } else {
        out.append("false");
    }
    assert(out@ == "{\"id\":"@ + decimal(r.id as nat) + ",\"ok\":"@ + bool_text(r.ok));
    push_string_member(&mut out, "text", &r.text);
    push_string_member(&mut out, "error", &r.error);
    push_number_member(&mut out, "elapsed_ms", r.elapsed_ms);
    out.append("}");
    assert(out@ =~= response_line(r@));
    out
}

} // verus!
