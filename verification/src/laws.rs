//! Properties of the library as a whole, proved over the specifications that
//! the functions' contracts use.

use vstd::prelude::*;
use crate::json::{
    bool_text, decimal, digit_char, escape_all, escape_char, hex_digit, json_quoted, opt_decimal,
    opt_member, opt_quoted,
};
use crate::protocol::{response_line, ResponseView};
use crate::client::{
    line_outcome,
    error_message, generate_line, ids_after, load_line, loaded, reply_outcome,
    shut_down, shutdown_line, started, given_up, unload_line, unloaded, initial, replay, load_skipped, Step,
    ClientErrorView, ClientView, FieldsView, PromptStyle,
};
use crate::locate::{candidates_of, exe_name_of, first_present};
use crate::client::{next_id_after, stopped, with_next_id};
use crate::text::{is_white_space, trim_start, trim_end};
use crate::json::json_reply_fields;
use crate::text::trimmed;
use crate::protocol::{handle_spec, Request};

verus! {

/// No character of an escaped character is a line break.
proof fn lemma_escape_char_no_newline(c: char)
    ensures
        !escape_char(c).contains('\n'),
{
    let e = escape_char(c);
    if (c as int) < 0x20 && c != '"' && c != '\\' && c != '\x08' && c != '\t' && c != '\n' && c
        != '\x0c' && c != '\r' {
        let hi = (c as int) / 16;
        let lo = (c as int) % 16;
        assert(0 <= hi < 16 && 0 <= lo < 16);
        assert(hex_digit(hi) != '\n');
        assert(hex_digit(lo) != '\n');
    }
    assert(forall|i: int| 0 <= i < e.len() ==> e[i] != '\n');
}

/// No character of an escaped string is a line break.
proof fn lemma_escape_all_no_newline(s: Seq<char>)
    ensures
        !escape_all(s).contains('\n'),
    decreases s.len(),
{
    if s.len() > 0 {
        lemma_escape_all_no_newline(s.drop_last());
        lemma_escape_char_no_newline(s.last());
        let a = escape_all(s.drop_last());
        let b = escape_char(s.last());
        assert forall|i: int| 0 <= i < (a + b).len() implies (a + b)[i] != '\n' by {
            if i < a.len() {
                assert(!a.contains('\n'));
            } else {
                assert(b[i - a.len()] == (a + b)[i]);
            }
        }
    }
}

/// A JSON string literal never spans two lines: serde_json escapes the line
/// break.
pub proof fn lemma_json_quoted_single_line(s: Seq<char>)
    ensures
        !json_quoted(s).contains('\n'),
{
    lemma_escape_all_no_newline(s);
    let q = json_quoted(s);
    let e = escape_all(s);
    assert forall|i: int| 0 <= i < q.len() implies q[i] != '\n' by {
        if 1 <= i < 1 + e.len() {
            assert(q[i] == e[i - 1]);
        }
    }
}

/// A decimal rendering never spans two lines.
pub proof fn lemma_decimal_single_line(n: nat)
    ensures
        !decimal(n).contains('\n'),
    decreases n,
{
    let d = decimal(n);
    if n < 10 {
        assert(digit_char(n as int) != '\n');
        assert(d[0] != '\n');
    } else {
        lemma_decimal_single_line(n / 10);
        let a = decimal(n / 10);
        assert(digit_char((n % 10) as int) != '\n');
        assert forall|i: int| 0 <= i < d.len() implies d[i] != '\n' by {
            if i < a.len() {
                assert(d[i] == a[i]);
            }
        }
    }
}

/// Joining two pieces without line breaks gives none.
proof fn lemma_join_single_line(a: Seq<char>, b: Seq<char>)
    requires
        !a.contains('\n'),
        !b.contains('\n'),
    ensures
        !(a + b).contains('\n'),
{
    assert forall|i: int| 0 <= i < (a + b).len() implies (a + b)[i] != '\n' by {
        if i < a.len() {
            assert((a + b)[i] == a[i]);
        } else {
            assert((a + b)[i] == b[i - a.len()]);
        }
    }
}

/// A text with no line break in any position holds none.
proof fn lemma_no_newline_in(s: Seq<char>)
    requires
        forall|i: int| 0 <= i < s.len() ==> s[i] != '\n',
    ensures
        !s.contains('\n'),
{
}

/// An optional member never spans two lines.
proof fn lemma_member_single_line(name: Seq<char>, value: Option<Seq<char>>)
    requires
        value matches Some(v) ==> !v.contains('\n'),
    ensures
        !opt_member(name, value).contains('\n'),
{
    match value {
        Some(v) => {
            reveal_strlit(",");
            reveal_strlit(":");
            lemma_no_newline_in(","@);
            lemma_no_newline_in(":"@);
            lemma_json_quoted_single_line(name);
            lemma_join_single_line(","@, json_quoted(name));
            lemma_join_single_line(","@ + json_quoted(name), ":"@);
            lemma_join_single_line(","@ + json_quoted(name) + ":"@, v);
        },
        None => {
            lemma_no_newline_in(Seq::<char>::empty());
        },
    }
}

/// `"true"` and `"false"` hold no line break.
proof fn lemma_bool_single_line(b: bool)
    ensures
        !bool_text(b).contains('\n'),
{
    reveal_strlit("true");
    reveal_strlit("false");
    lemma_no_newline_in("true"@);
    lemma_no_newline_in("false"@);
}

/// Every response is written as exactly one line: its JSON text holds no
/// line break, so the line-delimited stream cannot be corrupted by a
/// message or a generated text that contains one.
pub proof fn lemma_response_line_single_line(r: ResponseView)
    ensures
        !response_line(r).contains('\n'),
{
    reveal_strlit("{\"id\":");
    reveal_strlit(",\"ok\":");
    reveal_strlit("}");
    lemma_no_newline_in("{\"id\":"@);
    lemma_no_newline_in(",\"ok\":"@);
    lemma_no_newline_in("}"@);
    lemma_decimal_single_line(r.id as nat);
    lemma_bool_single_line(r.ok);
    match r.text {
        Some(t) => lemma_json_quoted_single_line(t),
        None => {},
    }
    match r.error {
        Some(t) => lemma_json_quoted_single_line(t),
        None => {},
    }
    match r.elapsed_ms {
        Some(n) => lemma_decimal_single_line(n as nat),
        None => {},
    }
    lemma_member_single_line("text"@, opt_quoted(r.text));
    lemma_member_single_line("error"@, opt_quoted(r.error));
    lemma_member_single_line("elapsed_ms"@, opt_decimal(r.elapsed_ms));
    let p1 = "{\"id\":"@ + decimal(r.id as nat);
    lemma_join_single_line("{\"id\":"@, decimal(r.id as nat));
    lemma_join_single_line(p1, ",\"ok\":"@);
    let p2 = p1 + ",\"ok\":"@;
    lemma_join_single_line(p2, bool_text(r.ok));
    let p3 = p2 + bool_text(r.ok);
    lemma_join_single_line(p3, opt_member("text"@, opt_quoted(r.text)));
    let p4 = p3 + opt_member("text"@, opt_quoted(r.text));
    lemma_join_single_line(p4, opt_member("error"@, opt_quoted(r.error)));
    let p5 = p4 + opt_member("error"@, opt_quoted(r.error));
    lemma_join_single_line(p5, opt_member("elapsed_ms"@, opt_decimal(r.elapsed_ms)));
    let p6 = p5 + opt_member("elapsed_ms"@, opt_decimal(r.elapsed_ms));
    lemma_join_single_line(p6, "}"@);
}

/// Every request line the client writes is exactly one line, whatever the
/// path, prompt or transcript it carries.
pub proof fn lemma_request_lines_single_line(
    id: u64,
    path: Seq<char>,
    gpu_layers: Option<u32>,
    system: Seq<char>,
    user: Seq<char>,
    max_tokens: usize,
    no_think: bool,
)
    ensures
        !load_line(id, path, gpu_layers).contains('\n'),
        !unload_line(id).contains('\n'),
        !shutdown_line(id).contains('\n'),
        !generate_line(id, system, user, max_tokens, no_think).contains('\n'),
{
    let d = decimal(id as nat);
    lemma_decimal_single_line(id as nat);
    reveal_strlit("}");
    lemma_no_newline_in("}"@);
    // load
    reveal_strlit("{\"cmd\":\"load\",\"id\":");
    reveal_strlit(",\"path\":");
    lemma_no_newline_in("{\"cmd\":\"load\",\"id\":"@);
    lemma_no_newline_in(",\"path\":"@);
    lemma_json_quoted_single_line(path);
    let g: Option<u64> = match gpu_layers {
        Some(n) => Some(n as u64),
        None => None,
    };
    match g {
        Some(n) => lemma_decimal_single_line(n as nat),
        None => {},
    }
    lemma_member_single_line("gpu_layers"@, opt_decimal(g));
    let l1 = "{\"cmd\":\"load\",\"id\":"@ + d;
    lemma_join_single_line("{\"cmd\":\"load\",\"id\":"@, d);
    lemma_join_single_line(l1, ",\"path\":"@);
    lemma_join_single_line(l1 + ",\"path\":"@, json_quoted(path));
    let l2 = l1 + ",\"path\":"@ + json_quoted(path);
    lemma_join_single_line(l2, opt_member("gpu_layers"@, opt_decimal(g)));
    lemma_join_single_line(l2 + opt_member("gpu_layers"@, opt_decimal(g)), "}"@);
    // unload and shutdown
    reveal_strlit("{\"cmd\":\"unload\",\"id\":");
    reveal_strlit("{\"cmd\":\"shutdown\",\"id\":");
    lemma_no_newline_in("{\"cmd\":\"unload\",\"id\":"@);
    lemma_no_newline_in("{\"cmd\":\"shutdown\",\"id\":"@);
    lemma_join_single_line("{\"cmd\":\"unload\",\"id\":"@, d);
    lemma_join_single_line("{\"cmd\":\"unload\",\"id\":"@ + d, "}"@);
    lemma_join_single_line("{\"cmd\":\"shutdown\",\"id\":"@, d);
    lemma_join_single_line("{\"cmd\":\"shutdown\",\"id\":"@ + d, "}"@);
    // generate
    reveal_strlit("{\"cmd\":\"generate\",\"id\":");
    reveal_strlit(",\"system\":");
    reveal_strlit(",\"user\":");
    reveal_strlit(",\"max_tokens\":");
    reveal_strlit(",\"no_think\":");
    lemma_no_newline_in("{\"cmd\":\"generate\",\"id\":"@);
    lemma_no_newline_in(",\"system\":"@);
    lemma_no_newline_in(",\"user\":"@);
    lemma_no_newline_in(",\"max_tokens\":"@);
    lemma_no_newline_in(",\"no_think\":"@);
    lemma_json_quoted_single_line(system);
    lemma_json_quoted_single_line(user);
    lemma_decimal_single_line(max_tokens as nat);
    lemma_bool_single_line(no_think);
    let g1 = "{\"cmd\":\"generate\",\"id\":"@ + d;
    lemma_join_single_line("{\"cmd\":\"generate\",\"id\":"@, d);
    lemma_join_single_line(g1, ",\"system\":"@);
    let g2 = g1 + ",\"system\":"@;
    lemma_join_single_line(g2, json_quoted(system));
    let g3 = g2 + json_quoted(system);
    lemma_join_single_line(g3, ",\"user\":"@);
    let g4 = g3 + ",\"user\":"@;
    lemma_join_single_line(g4, json_quoted(user));
    let g5 = g4 + json_quoted(user);
    lemma_join_single_line(g5, ",\"max_tokens\":"@);
    let g6 = g5 + ",\"max_tokens\":"@;
    lemma_join_single_line(g6, decimal(max_tokens as nat));
    let g7 = g6 + decimal(max_tokens as nat);
    lemma_join_single_line(g7, ",\"no_think\":"@);
    let g8 = g7 + ",\"no_think\":"@;
    lemma_join_single_line(g8, bool_text(no_think));
    lemma_join_single_line(g8 + bool_text(no_think), "}"@);
}

/// After `n` requests the id counter stands at `id + n`, modulo 2^64.
proof fn lemma_ids_after(id: u64, n: nat)
    ensures
        ids_after(id, n) as int == (id as int + n) % 0x1_0000_0000_0000_0000,
    decreases n,
{
    if n > 0 {
        lemma_ids_after(id, (n - 1) as nat);
    }
}

/// Request ids are unique: of any run of fewer than 2^64 requests, no two
/// carry the same id.
pub proof fn lemma_request_ids_distinct(start: u64, j: nat, k: nat)
    requires
        j < k < 0x1_0000_0000_0000_0000,
    ensures
        ids_after(start, j) != ids_after(start, k),
{
    lemma_ids_after(start, j);
    lemma_ids_after(start, k);
}

/// Every response answers its request: it carries the request's id, reports
/// success exactly when it carries no error, and for a request that ran on
/// the engine it fails exactly when the engine did, with the engine's
/// message; a generation returns the generated text.
pub proof fn lemma_response_answers_request(
    request: Request,
    outcome: Result<Seq<char>, Seq<char>>,
    elapsed_ms: u64,
)
    ensures
        handle_spec(request, outcome, elapsed_ms).id == request.spec_id(),
        handle_spec(request, outcome, elapsed_ms).well_formed(),
        (request is Load || request is Generate) ==> (handle_spec(request, outcome, elapsed_ms).ok
            <==> outcome is Ok),
        (request is Load || request is Generate) ==> (outcome matches Err(e) ==> handle_spec(
            request,
            outcome,
            elapsed_ms,
        ).error == Some(e)),
        (request is Generate && outcome is Ok) ==> handle_spec(request, outcome, elapsed_ms).text
            == Some(outcome->Ok_0),
        !(request is Load || request is Generate) ==> handle_spec(request, outcome, elapsed_ms).ok,
{
}

/// A reply is accepted only when it says `"ok": true`.
pub proof fn lemma_reply_accepted_only_when_ok(fields: Option<FieldsView>)
    ensures
        reply_outcome(fields) is Ok <==> (fields matches Some(f) && f.0 == Some(true)),
{
}

/// A missing binary is reported as an error that says it was not found.
pub proof fn lemma_missing_binary_reported(exe: Seq<char>)
    ensures
        error_message(ClientErrorView::NotFound { exe }).subrange(15, 24) == "not found"@,
{
    reveal_strlit("sidecar binary not found at ");
    reveal_strlit("not found");
    let m = error_message(ClientErrorView::NotFound { exe });
    assert(m.subrange(15, 24) =~= "not found"@);
}

/// The bundled copy wins over any developer build lying around: with no
/// override, when the binary is present in the resource directory it is the
/// one chosen; an explicit override that is present wins over everything.
pub proof fn lemma_bundled_binary_preferred(
    resource_dir: Seq<char>,
    exe_dir: Option<Seq<char>>,
    override_path: Option<Seq<char>>,
    target_triple: Seq<char>,
    windows: bool,
    present: Seq<bool>,
)
    requires
        present.len() > 0,
        present[0],
    ensures
        override_path matches Some(p) ==> first_present(
            candidates_of(Some(resource_dir), exe_dir, override_path, target_triple, windows),
            present,
        ) == Some(seq![p]),
        override_path is None ==> first_present(
            candidates_of(Some(resource_dir), exe_dir, override_path, target_triple, windows),
            present,
        ) == Some(seq![resource_dir, exe_name_of(windows)]),
{
    let c = candidates_of(Some(resource_dir), exe_dir, override_path, target_triple, windows);
    match override_path {
        Some(p) => {
            assert(c[0] == seq![p]);
        },
        None => {
            assert(c[0] == seq![resource_dir, exe_name_of(windows)]);
        },
    }
}

/// Loading a model makes the handle ready with that model, and a later load
/// of the same model is skipped (`load_command` gives no line and leaves the
/// handle, its prompt style and its reasoning flag, as they are), whatever
/// arguments the later load carries.
pub proof fn lemma_reload_is_noop(v: ClientView, model: Seq<char>, reasoning: bool, style: PromptStyle)
    ensures
        loaded(v, model, reasoning, style).loaded == Some(model),
        load_skipped(loaded(v, model, reasoning, style), model),
{
}

/// Unloading clears readiness and leaves the process as it was.
pub proof fn lemma_unload_clears_readiness(v: ClientView)
    ensures
        unloaded(v).loaded is None,
        unloaded(v).running == v.running,
{
}

/// A shutdown stops the process and forgets the model, so the next request
/// starts a fresh process and the handle is not ready until a model is
/// loaded again.
pub proof fn lemma_shutdown_then_restart(v: ClientView)
    ensures
        !shut_down(v).running,
        shut_down(v).loaded is None,
        started(shut_down(v)).running,
        started(shut_down(v)).loaded is None,
{
}

/// A process that timed out or died is given up on together with the model
/// it held: the handle is not ready, the next request starts a fresh process,
/// and a load of the same model is not skipped but sent to it.
pub proof fn lemma_given_up_process_restarts(v: ClientView, model: Seq<char>)
    ensures
        !given_up(v).running,
        given_up(v).loaded is None,
        started(given_up(v)).running,
        !load_skipped(started(given_up(v)), model),
{
}

/// Whether the last step of `steps` that starts or ends the process started
/// it.
pub open spec fn started_last(steps: Seq<Step>) -> bool
    decreases steps.len(),
{
    if steps.len() == 0 {
        false
    } else {
        match steps.last() {
            Step::Start => true,
            Step::GiveUp | Step::Shutdown => false,
            _ => started_last(steps.drop_last()),
        }
    }
}

/// The prompt style of the last successful load in `steps`, or the
/// instructed style when there was none.
pub open spec fn style_of_last_load(steps: Seq<Step>) -> PromptStyle
    decreases steps.len(),
{
    if steps.len() == 0 {
        PromptStyle::Instructed
    } else {
        match steps.last() {
            Step::Load { prompt_style, .. } => prompt_style,
            _ => style_of_last_load(steps.drop_last()),
        }
    }
}

/// The process is running exactly when the last step that started or ended
/// it was a successful start: not after `new`, a shutdown, or a request that
/// timed out or found the process dead.
pub proof fn lemma_running_follows_history(exe: Seq<char>, steps: Seq<Step>)
    ensures
        replay(initial(exe), steps).running == started_last(steps),
    decreases steps.len(),
{
    if steps.len() > 0 {
        lemma_running_follows_history(exe, steps.drop_last());
    }
}

/// The prompt style is that of the most recent successful load, or the
/// instructed style when no load succeeded; skipped or failed loads,
/// unloads, shutdowns and generations leave it as it was.
pub proof fn lemma_prompt_style_follows_history(exe: Seq<char>, steps: Seq<Step>)
    ensures
        replay(initial(exe), steps).prompt_style == style_of_last_load(steps),
    decreases steps.len(),
{
    if steps.len() > 0 {
        lemma_prompt_style_follows_history(exe, steps.drop_last());
    }
}

/// A model is recorded as loaded only while a process is running: no step
/// breaks this, provided each load is recorded on a running handle (as it is,
/// since a load is recorded only on an accepted reply, and `request` accepts
/// a reply only from a running process).
pub proof fn lemma_loaded_only_while_running(exe: Seq<char>, steps: Seq<Step>)
    requires
        forall|i: int|
            0 <= i < steps.len() && (#[trigger] steps[i]) is Load ==> replay(
                initial(exe),
                steps.take(i),
            ).running,
    ensures
        replay(initial(exe), steps).loaded is Some ==> replay(initial(exe), steps).running,
    decreases steps.len(),
{
    if steps.len() > 0 {
        let prefix = steps.drop_last();
        assert forall|i: int|
            0 <= i < prefix.len() && (#[trigger] prefix[i]) is Load implies replay(
            initial(exe),
            prefix.take(i),
        ).running by {
            assert(prefix[i] == steps[i]);
            assert(prefix.take(i) =~= steps.take(i));
        }
        lemma_loaded_only_while_running(exe, prefix);
        let last = (steps.len() - 1) as int;
        assert(steps.take(last) =~= prefix);
        assert(steps[last] == steps.last());
    }
}

/// An accepted reply is handed back whole: every member the document
/// carries (its `text` above all) comes back exactly as parsed. A refused
/// reply fails with the document's own `error` text where it has one.
pub proof fn lemma_accepted_reply_kept_whole(f: FieldsView)
    ensures
        f.0 == Some(true) ==> reply_outcome(Some(f)) == Ok::<FieldsView, ClientErrorView>(f),
        f.0 != Some(true) ==> (f.1 matches Some(m) ==> reply_outcome(Some(f)) == Err::<
            FieldsView,
            ClientErrorView,
        >(ClientErrorView::Refused { message: m })),
        f.0 != Some(true) ==> (f.1 is None ==> reply_outcome(Some(f)) == Err::<
            FieldsView,
            ClientErrorView,
        >(ClientErrorView::Refused { message: "unknown sidecar error"@ })),
        reply_outcome(None) == Err::<FieldsView, ClientErrorView>(ClientErrorView::MalformedReply),
{
}

/// A reply line whose document says `"ok": true` is accepted with exactly the
/// members of that document, and whatever is accepted is that document.
pub proof fn lemma_accepted_line_is_its_document(line: Seq<char>, f: FieldsView)
    ensures
        (json_reply_fields(trimmed(line)) == Some(f) && f.0 == Some(true)) ==> line_outcome(line)
            == Ok::<FieldsView, ClientErrorView>(f),
        line_outcome(line) == Ok::<FieldsView, ClientErrorView>(f) ==> json_reply_fields(
            trimmed(line),
        ) == Some(f) && f.0 == Some(true),
{
}

/// A successful load records exactly what it is given, whatever the handle
/// held before: the model, its reasoning flag and its prompt style; the
/// process, the binary and the id counter are untouched. Of two loads in a
/// row, the second's flag and style are the ones that stand.
pub proof fn lemma_load_records_what_it_is_given(
    v: ClientView,
    model: Seq<char>,
    reasoning: bool,
    style: PromptStyle,
    model2: Seq<char>,
    reasoning2: bool,
    style2: PromptStyle,
)
    ensures
        loaded(v, model, reasoning, style).loaded == Some(model),
        loaded(v, model, reasoning, style).reasoning == reasoning,
        loaded(v, model, reasoning, style).prompt_style == style,
        loaded(v, model, reasoning, style).running == v.running,
        loaded(v, model, reasoning, style).exe == v.exe,
        loaded(v, model, reasoning, style).next_id == v.next_id,
        loaded(loaded(v, model, reasoning, style), model2, reasoning2, style2).reasoning
            == reasoning2,
        loaded(loaded(v, model, reasoning, style), model2, reasoning2, style2).prompt_style
            == style2,
        loaded(loaded(v, model, reasoning, style), model2, reasoning2, style2).loaded == Some(
            model2,
        ),
{
}

/// The file name of the binary on each platform.
pub open spec fn platform_exe_name(windows: bool) -> Seq<char> {
    if windows {
        "handier-llm.exe"@
    } else {
        "handier-llm"@
    }
}

/// Every directory that is searched is searched for the platform's file name
/// first and the staged name second: the resource directory right after the
/// override, the app binary's directory right after those.
pub proof fn lemma_directories_searched_for_platform_name(
    resource_dir: Option<Seq<char>>,
    exe_dir: Option<Seq<char>>,
    override_path: Option<Seq<char>>,
    target_triple: Seq<char>,
    windows: bool,
)
    ensures
        ({
            let c = candidates_of(resource_dir, exe_dir, override_path, target_triple, windows);
            let k0: int = if override_path is Some { 1int } else { 0int };
            let k1: int = k0 + if resource_dir is Some { 2int } else { 0int };
            let staged = "handier-llm-"@ + target_triple + (if windows { ".exe"@ } else { ""@ });
            &&& (override_path matches Some(p) ==> c[0] == seq![p])
            &&& (resource_dir matches Some(d) ==> c[k0] == seq![d, platform_exe_name(windows)]
                && c[k0 + 1] == seq![d, staged])
            &&& (exe_dir matches Some(d) ==> c[k1] == seq![d, platform_exe_name(windows)] && c[k1
                + 1] == seq![d, staged])
            &&& c.len() == k1 + (if exe_dir is Some { 2int } else { 0int }) + 8
        }),
        ({
            let c = candidates_of(resource_dir, exe_dir, override_path, target_triple, windows);
            let k: int = c.len() - 8;
            let exe = platform_exe_name(windows);
            let staged = "handier-llm-"@ + target_triple + (if windows { ".exe"@ } else { ""@ });
            &&& c[k] == seq!["binaries"@, staged]
            &&& c[k + 1] == seq!["binaries"@, exe]
            &&& c[k + 2] == seq!["src-tauri/binaries"@, staged]
            &&& c[k + 3] == seq!["src-tauri/binaries"@, exe]
            &&& c[k + 4] == seq!["../src-tauri/binaries"@, staged]
            &&& c[k + 5] == seq!["../src-tauri/binaries"@, exe]
            &&& c[k + 6] == seq!["crates/handy-llm/target"@, "release"@, exe]
            &&& c[k + 7] == seq!["crates/handy-llm/target"@, "debug"@, exe]
        }),
{
}

/// The unload and shutdown lines carry the request's id and nothing else.
pub proof fn lemma_short_lines_carry_their_id(id: u64)
    ensures
        unload_line(id) == "{\"cmd\":\"unload\",\"id\":"@ + decimal(id as nat) + "}"@,
        shutdown_line(id) == "{\"cmd\":\"shutdown\",\"id\":"@ + decimal(id as nat) + "}"@,
        digits_value(decimal(id as nat)) == id,
{
    lemma_decimal_reads_back(id as nat);
}

/// The last `k` characters of a text.
pub open spec fn last_chars(s: Seq<char>, k: int) -> Seq<char> {
    s.subrange(s.len() - k, s.len() as int)
}

/// Whether `part` occurs in `s` at position `i`.
pub open spec fn occurs_at(s: Seq<char>, part: Seq<char>, i: int) -> bool {
    0 <= i && i + part.len() <= s.len() && s.subrange(i, i + part.len()) == part
}

/// The generate line ends with the soft switch exactly as it is given:
/// `"no_think":true` for a model that deliberates and `"no_think":false`
/// otherwise, whatever the prompts, the budget and the id. The prompt and
/// the transcript stand in the line as their JSON literals.
#[verifier::rlimit(40)]
pub proof fn lemma_generate_line_carries_its_switch(
    id: u64,
    system: Seq<char>,
    user: Seq<char>,
    max_tokens: usize,
    no_think: bool,
)
    ensures
        ({
            let line = generate_line(id, system, user, max_tokens, no_think);
            let tail = if no_think {
                ",\"no_think\":true}"@
            } else {
                ",\"no_think\":false}"@
            };
            &&& tail.len() <= line.len()
            &&& last_chars(line, tail.len() as int) == tail
        }),
        ({
            let line = generate_line(id, system, user, max_tokens, no_think);
            let head = "{\"cmd\":\"generate\",\"id\":"@ + decimal(id as nat) + ",\"system\":"@;
            &&& occurs_at(line, head + json_quoted(system), 0)
            &&& occurs_at(line, ",\"user\":"@ + json_quoted(user), (head + json_quoted(system)).len() as int)
        }),
{
    reveal_strlit(",\"no_think\":");
    reveal_strlit("true");
    reveal_strlit("false");
    reveal_strlit("}");
    reveal_strlit(",\"no_think\":true}");
    reveal_strlit(",\"no_think\":false}");
    let line = generate_line(id, system, user, max_tokens, no_think);
    let head = "{\"cmd\":\"generate\",\"id\":"@ + decimal(id as nat) + ",\"system\":"@;
    let user_part = ",\"user\":"@ + json_quoted(user);
    let rest = ",\"max_tokens\":"@ + decimal(max_tokens as nat);
    let tail = ",\"no_think\":"@ + bool_text(no_think) + "}"@;
    assert(line =~= (head + json_quoted(system)) + user_part + rest + tail);
    let lit = if no_think {
        ",\"no_think\":true}"@
    } else {
        ",\"no_think\":false}"@
    };
    assert(tail =~= lit);
    assert(last_chars(line, tail.len() as int) =~= tail);
    assert(line.subrange(0, (head + json_quoted(system)).len() as int) =~= head + json_quoted(system));
    let p = (head + json_quoted(system)).len() as int;
    assert(line.subrange(p, p + user_part.len()) =~= user_part);
}

/// Every member a response holds is written into its line: its text and its
/// error as JSON string literals, its time as a decimal number; the line
/// opens with the id and the `ok` flag as given.
#[verifier::rlimit(40)]
pub proof fn lemma_response_line_holds_its_members(r: ResponseView)
    ensures
        occurs_at(
            response_line(r),
            "{\"id\":"@ + decimal(r.id as nat) + (if r.ok {
                ",\"ok\":true"@
            } else {
                ",\"ok\":false"@
            }),
            0,
        ),
        r.text matches Some(t) ==> exists|i: int|
            occurs_at(response_line(r), ",\"text\":"@ + json_quoted(t), i),
        r.error matches Some(e) ==> exists|i: int|
            occurs_at(response_line(r), ",\"error\":"@ + json_quoted(e), i),
        r.elapsed_ms matches Some(ms) ==> exists|i: int|
            occurs_at(response_line(r), ",\"elapsed_ms\":"@ + decimal(ms as nat), i),
{
    reveal_strlit(",\"ok\":");
    reveal_strlit(",\"ok\":true");
    reveal_strlit(",\"ok\":false");
    reveal_strlit("true");
    reveal_strlit("false");
    reveal_strlit(",");
    reveal_strlit(":");
    reveal_strlit("text");
    reveal_strlit("error");
    reveal_strlit("elapsed_ms");
    reveal_strlit(",\"text\":");
    reveal_strlit(",\"error\":");
    reveal_strlit(",\"elapsed_ms\":");
    reveal_with_fuel(escape_all, 11);
    let line = response_line(r);
    let a = "{\"id\":"@ + decimal(r.id as nat) + ",\"ok\":"@ + bool_text(r.ok);
    let mt = opt_member("text"@, opt_quoted(r.text));
    let me = opt_member("error"@, opt_quoted(r.error));
    let mm = opt_member("elapsed_ms"@, opt_decimal(r.elapsed_ms));
    assert(line =~= a + mt + me + mm + "}"@);
    let head = "{\"id\":"@ + decimal(r.id as nat) + (if r.ok {
        ",\"ok\":true"@
    } else {
        ",\"ok\":false"@
    });
    assert(a =~= head);
    assert(line.subrange(0, head.len() as int) =~= head);
    assert(json_quoted("text"@) =~= seq!['"', 't', 'e', 'x', 't', '"']);
    assert(json_quoted("error"@) =~= seq!['"', 'e', 'r', 'r', 'o', 'r', '"']);
    assert(json_quoted("elapsed_ms"@) =~= seq!['"', 'e', 'l', 'a', 'p', 's', 'e', 'd', '_', 'm', 's', '"']);
    if let Some(t) = r.text {
        let part = ",\"text\":"@ + json_quoted(t);
        assert(mt =~= part);
        let i = a.len() as int;
        assert(line.subrange(i, i + part.len()) =~= part);
        assert(occurs_at(line, part, i));
    }
    if let Some(e) = r.error {
        let part = ",\"error\":"@ + json_quoted(e);
        assert(me =~= part);
        let i = (a + mt).len() as int;
        assert(line.subrange(i, i + part.len()) =~= part);
        assert(occurs_at(line, part, i));
    }
    if let Some(ms) = r.elapsed_ms {
        let part = ",\"elapsed_ms\":"@ + decimal(ms as nat);
        assert(mm =~= part);
        let i = (a + mt + me).len() as int;
        assert(line.subrange(i, i + part.len()) =~= part);
        assert(occurs_at(line, part, i));
    }
}

/// The candidate that `find_binary` picks is the first one present: it is
/// present, it stands at the position of its flag, and no earlier candidate
/// is present. It picks none exactly when no candidate (among those with a
/// flag) is present.
pub proof fn lemma_first_present_is_first(candidates: Seq<Seq<Seq<char>>>, present: Seq<bool>)
    ensures
        first_present(candidates, present) matches Some(x) ==> exists|i: int|
            0 <= i < candidates.len() && i < present.len() && present[i] && candidates[i] == x
                && forall|j: int| 0 <= j < i ==> !present[j],
        first_present(candidates, present) is None <==> forall|i: int|
            0 <= i < candidates.len() && i < present.len() ==> !present[i],
    decreases candidates.len(),
{
    if candidates.len() == 0 || present.len() == 0 {
    } else if present[0] {
        assert(forall|j: int| 0 <= j < 0 ==> !present[j]);
    } else {
        let c = candidates.drop_first();
        let p = present.drop_first();
        lemma_first_present_is_first(c, p);
        if let Some(x) = first_present(candidates, present) {
            let i = choose|i: int|
                0 <= i < c.len() && i < p.len() && p[i] && c[i] == x && forall|j: int|
                    0 <= j < i ==> !p[j];
            assert(present[i + 1] && candidates[i + 1] == x);
            assert forall|j: int| 0 <= j < i + 1 implies !present[j] by {
                if j > 0 {
                    assert(present[j] == p[j - 1]);
                }
            }
        }
        if first_present(candidates, present) is None {
            assert forall|i: int| 0 <= i < candidates.len() && i < present.len() implies !present[i] by {
                if i > 0 {
                    assert(present[i] == p[i - 1]);
                }
            }
        } else {
            let x = first_present(candidates, present)->Some_0;
            let i = choose|i: int|
                0 <= i < c.len() && i < p.len() && p[i] && c[i] == x && forall|j: int|
                    0 <= j < i ==> !p[j];
            assert(present[i + 1]);
        }
    }
}

/// Trimming removes white space from both ends and nothing else: the result
/// is a contiguous piece of the text, everything cut off is white space, and
/// the result neither starts nor ends with white space.
pub proof fn lemma_trim_cuts_only_white_space(s: Seq<char>)
    ensures
        exists|i: int, j: int|
            0 <= i <= j <= s.len() && trimmed(s) == s.subrange(i, j) && (forall|k: int|
                0 <= k < i ==> is_white_space(#[trigger] s[k])) && (forall|k: int|
                j <= k < s.len() ==> is_white_space(#[trigger] s[k])),
        trimmed(s).len() > 0 ==> !is_white_space(trimmed(s)[0]) && !is_white_space(
            trimmed(s).last(),
        ),
{
    let (i, t) = lemma_trim_start_shape(s);
    let j = lemma_trim_end_shape(t);
    assert(trimmed(s) == t.subrange(0, j));
    assert(t.subrange(0, j) =~= s.subrange(i, i + j));
    assert forall|k: int| i + j <= k < s.len() implies is_white_space(#[trigger] s[k]) by {
        assert(s[k] == t[k - i]);
    }
    lemma_trim_start_no_leading(s);
    lemma_trim_end_no_trailing(t);
    if trimmed(s).len() > 0 {
        assert(trimmed(s)[0] == t[0]);
    }
}

/// `trim_start(s)` is `s` from some point on, and what precedes it is white
/// space.
proof fn lemma_trim_start_shape(s: Seq<char>) -> (r: (int, Seq<char>))
    ensures
        0 <= r.0 <= s.len(),
        r.1 == trim_start(s),
        r.1 == s.subrange(r.0, s.len() as int),
        forall|k: int| 0 <= k < r.0 ==> is_white_space(#[trigger] s[k]),
    decreases s.len(),
{
    if s.len() > 0 && is_white_space(s[0]) {
        let (i, t) = lemma_trim_start_shape(s.drop_first());
        assert(s.drop_first().subrange(i, s.drop_first().len() as int) =~= s.subrange(i + 1, s.len() as int));
        assert forall|k: int| 0 <= k < i + 1 implies is_white_space(#[trigger] s[k]) by {
            if k > 0 {
                assert(s[k] == s.drop_first()[k - 1]);
            }
        }
        (i + 1, t)
    } else {
        assert(s.subrange(0, s.len() as int) =~= s);
        (0, s)
    }
}

/// `trim_end(s)` is `s` up to some point, and what follows is white space.
proof fn lemma_trim_end_shape(s: Seq<char>) -> (j: int)
    ensures
        0 <= j <= s.len(),
        trim_end(s) == s.subrange(0, j),
        forall|k: int| j <= k < s.len() ==> is_white_space(#[trigger] s[k]),
    decreases s.len(),
{
    if s.len() > 0 && is_white_space(s.last()) {
        let j = lemma_trim_end_shape(s.drop_last());
        assert(s.drop_last().subrange(0, j) =~= s.subrange(0, j));
        assert forall|k: int| j <= k < s.len() implies is_white_space(#[trigger] s[k]) by {
            if k < s.len() - 1 {
                assert(s[k] == s.drop_last()[k]);
            }
        }
        j
    } else {
        assert(s.subrange(0, s.len() as int) =~= s);
        s.len() as int
    }
}

/// What `trim_start` leaves does not start with white space.
proof fn lemma_trim_start_no_leading(s: Seq<char>)
    ensures
        trim_start(s).len() > 0 ==> !is_white_space(trim_start(s)[0]),
    decreases s.len(),
{
    if s.len() > 0 && is_white_space(s[0]) {
        lemma_trim_start_no_leading(s.drop_first());
    }
}

/// What `trim_end` leaves neither ends with white space nor loses its first
/// character unless it loses everything.
proof fn lemma_trim_end_no_trailing(s: Seq<char>)
    ensures
        trim_end(s).len() > 0 ==> !is_white_space(trim_end(s).last()),
        trim_end(s).len() > 0 ==> trim_end(s)[0] == s[0],
    decreases s.len(),
{
    if s.len() > 0 && is_white_space(s.last()) {
        lemma_trim_end_no_trailing(s.drop_last());
    }
}

/// The value of a text of decimal digits.
pub open spec fn digits_value(s: Seq<char>) -> int
    decreases s.len(),
{
    if s.len() == 0 {
        0
    } else {
        digits_value(s.drop_last()) * 10 + (s.last() as int - 48)
    }
}

/// A decimal rendering reads back as the number: its digits are `0` to `9`,
/// it has no leading zero (unless it is `0` itself), and its value is `n`.
pub proof fn lemma_decimal_reads_back(n: nat)
    ensures
        digits_value(decimal(n)) == n,
        decimal(n).len() > 0,
        forall|i: int| 0 <= i < decimal(n).len() ==> 48 <= (#[trigger] decimal(n)[i]) as int <= 57,
        n > 0 ==> decimal(n)[0] != '0',
    decreases n,
{
    let d = decimal(n);
    if n < 10 {
        assert(d.drop_last() =~= Seq::<char>::empty());
        assert(d.last() as int == 48 + n);
        assert(digits_value(d) == digits_value(d.drop_last()) * 10 + (d.last() as int - 48));
    } else {
        lemma_decimal_reads_back(n / 10);
        assert(d.drop_last() =~= decimal(n / 10));
        assert(d.last() as int == 48 + n % 10);
        assert(digits_value(d) == digits_value(d.drop_last()) * 10 + (d.last() as int - 48));
        assert(d[0] == decimal(n / 10)[0]);
        assert forall|i: int| 0 <= i < d.len() implies 48 <= (#[trigger] d[i]) as int <= 57 by {
            if i < d.len() - 1 {
                assert(d[i] == decimal(n / 10)[i]);
            }
        }
    }
}

/// The load line opens with the id and the path as a JSON string literal,
/// and ends with the layer count where one is given and with the path
/// otherwise.
pub proof fn lemma_load_line_carries_path_and_layers(id: u64, path: Seq<char>, gpu_layers: Option<u32>)
    ensures
        ({
            let line = load_line(id, path, gpu_layers);
            let head = "{\"cmd\":\"load\",\"id\":"@ + decimal(id as nat) + ",\"path\":"@
                + json_quoted(path);
            &&& occurs_at(line, head, 0)
            &&& match gpu_layers {
                Some(n) => line == head + ",\"gpu_layers\":"@ + decimal(n as nat) + "}"@,
                None => line == head + "}"@,
            }
        }),
{
    reveal_strlit(",");
    reveal_strlit(":");
    reveal_strlit("gpu_layers");
    reveal_strlit(",\"gpu_layers\":");
    reveal_with_fuel(escape_all, 11);
    let line = load_line(id, path, gpu_layers);
    let head = "{\"cmd\":\"load\",\"id\":"@ + decimal(id as nat) + ",\"path\":"@ + json_quoted(path);
    assert(json_quoted("gpu_layers"@) =~= seq!['"', 'g', 'p', 'u', '_', 'l', 'a', 'y', 'e', 'r', 's', '"']);
    match gpu_layers {
        Some(n) => {
            assert(line =~= head + ",\"gpu_layers\":"@ + decimal(n as nat) + "}"@);
        },
        None => {
            assert(line =~= head + "}"@);
        },
    }
    assert(line.subrange(0, head.len() as int) =~= head);
}

/// Each change of the handle touches only what it is about: taking an id
/// moves the counter to a different value; starting sets only `running`;
/// giving the process up clears only `running` and the model; unloading
/// clears only the model; a shutdown leaves the binary, the reasoning flag
/// and the prompt style as they were.
pub proof fn lemma_steps_change_only_their_fields(v: ClientView)
    ensures
        with_next_id(v).next_id != v.next_id,
        with_next_id(v).next_id as int == (v.next_id as int + 1) % 0x1_0000_0000_0000_0000,
        with_next_id(v) == (ClientView { next_id: with_next_id(v).next_id, ..v }),
        started(v) == (ClientView { running: true, ..v }),
        stopped(v) == (ClientView { running: false, ..v }),
        given_up(v) == (ClientView { running: false, loaded: None, ..v }),
        unloaded(v) == (ClientView { loaded: None, ..v }),
        shut_down(v).exe == v.exe,
        shut_down(v).reasoning == v.reasoning,
        shut_down(v).prompt_style == v.prompt_style,
        shut_down(v).next_id == if v.running { next_id_after(v.next_id) } else { v.next_id },
{
}

/// The error for a binary that cannot be started names the binary at its
/// end.
pub proof fn lemma_start_errors_name_the_binary(exe: Seq<char>, detail: Seq<char>)
    ensures
        ({
            let m = error_message(ClientErrorView::NotFound { exe });
            &&& m.len() >= exe.len()
            &&& last_chars(m, exe.len() as int) == exe
        }),
        ({
            let m = error_message(ClientErrorView::SpawnFailed { exe, detail });
            &&& m.len() >= exe.len()
            &&& last_chars(m, exe.len() as int) == exe
        }),
{
    let m1 = error_message(ClientErrorView::NotFound { exe });
    assert(last_chars(m1, exe.len() as int) =~= exe);
    let m2 = error_message(ClientErrorView::SpawnFailed { exe, detail });
    assert(last_chars(m2, exe.len() as int) =~= exe);
}

} // verus!
