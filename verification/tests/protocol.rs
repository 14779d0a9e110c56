use handy_llm::protocol::{
    bad_request, classify_line, dispatch, encode_response, ends_session, engine_job, EngineJob, LineAction, Turn,
    DEFAULT_MAX_TOKENS,
};
use handy_llm::{elapsed_ms, handle, Request, Response};

fn generate_request(max_tokens: Option<usize>, no_think: Option<bool>) -> Request {
    Request::Generate {
        id: 3,
        system: String::from("edit"),
        user: String::from("um so"),
        max_tokens,
        no_think,
    }
}

#[test]
fn responses_are_encoded_as_one_json_line() {
    let ok = Response::generated(3, String::from("Send it to Jane."), 132);
    assert_eq!(
        encode_response(&ok),
        "{\"id\":3,\"ok\":true,\"text\":\"Send it to Jane.\",\"elapsed_ms\":132}"
    );
    let err = Response::error(3, String::from("no model is loaded"));
    assert_eq!(encode_response(&err), "{\"id\":3,\"ok\":false,\"error\":\"no model is loaded\"}");
    assert_eq!(encode_response(&Response::ok(18446744073709551615)), "{\"id\":18446744073709551615,\"ok\":true}");
}

#[test]
fn generated_text_with_line_breaks_stays_on_one_line() {
    let r = Response::generated(1, String::from("a\nb\r\t\"c\"\\ \u{1}"), 0);
    let line = encode_response(&r);
    assert!(!line.contains('\n'));
    assert_eq!(line, "{\"id\":1,\"ok\":true,\"text\":\"a\\nb\\r\\t\\\"c\\\"\\\\ \\u0001\",\"elapsed_ms\":0}");
}

#[test]
fn handle_answers_each_request_with_its_id() {
    assert_eq!(encode_response(&handle(Request::Ping { id: 1 }, Ok(String::new()), 5)), "{\"id\":1,\"ok\":true}");
    assert_eq!(encode_response(&handle(Request::Unload { id: 4 }, Ok(String::new()), 5)), "{\"id\":4,\"ok\":true}");
    assert_eq!(encode_response(&handle(Request::Shutdown { id: 5 }, Ok(String::new()), 5)), "{\"id\":5,\"ok\":true}");
    let load = Request::Load { id: 2, path: String::from("m.gguf"), threads: Some(4), ctx: Some(2048), gpu_layers: None };
    assert_eq!(encode_response(&handle(load, Ok(String::new()), 1431)), "{\"id\":2,\"ok\":true,\"elapsed_ms\":1431}");
}

#[test]
fn engine_failures_are_reported_with_their_message() {
    let load = Request::Load { id: 2, path: String::from("m.gguf"), threads: None, ctx: None, gpu_layers: Some(0) };
    let r = handle(load, Err(String::from("file not found")), 9);
    assert_eq!(r.id, 2);
    assert!(!r.ok);
    assert_eq!(r.error.as_deref(), Some("file not found"));
    assert_eq!(r.elapsed_ms, None);
    let r = handle(generate_request(None, None), Err(String::from("no model is loaded")), 9);
    assert_eq!(encode_response(&r), "{\"id\":3,\"ok\":false,\"error\":\"no model is loaded\"}");
}

#[test]
fn a_generation_returns_its_text_and_time() {
    let r = handle(generate_request(Some(200), Some(true)), Ok(String::from("Send it to Jane.")), 132);
    assert_eq!(r.id, 3);
    assert!(r.ok);
    assert_eq!(r.text.as_deref(), Some("Send it to Jane."));
    assert_eq!(r.elapsed_ms, Some(132));
    assert!(r.error.is_none());
}

#[test]
fn generation_defaults_to_the_token_cap_and_no_soft_switch() {
    assert_eq!(DEFAULT_MAX_TOKENS, 512);
    match engine_job(&generate_request(None, None)) {
        Some(EngineJob::Generate { system, user, max_tokens, no_think }) => {
            assert_eq!(system, "edit");
            assert_eq!(user, "um so");
            assert_eq!(max_tokens, 512);
            assert!(!no_think);
        }
        _ => panic!("a generate request runs a generation"),
    }
    match engine_job(&generate_request(Some(200), Some(true))) {
        Some(EngineJob::Generate { max_tokens, no_think, .. }) => {
            assert_eq!(max_tokens, 200);
            assert!(no_think);
        }
        _ => panic!("a generate request runs a generation"),
    }
}

#[test]
fn only_load_generate_and_unload_reach_the_engine() {
    assert!(engine_job(&Request::Ping { id: 1 }).is_none());
    assert!(engine_job(&Request::Shutdown { id: 1 }).is_none());
    assert!(matches!(engine_job(&Request::Unload { id: 1 }), Some(EngineJob::Unload)));
    let load = Request::Load { id: 2, path: String::from("m.gguf"), threads: Some(4), ctx: Some(2048), gpu_layers: None };
    match engine_job(&load) {
        Some(EngineJob::Load { path, threads, ctx, gpu_layers }) => {
            assert_eq!(path, "m.gguf");
            assert_eq!(threads, Some(4));
            assert_eq!(ctx, Some(2048));
            assert_eq!(gpu_layers, None);
        }
        _ => panic!("a load request runs a load"),
    }
}

#[test]
fn elapsed_time_saturates() {
    assert_eq!(elapsed_ms(132), 132);
    assert_eq!(elapsed_ms(u64::MAX as u128), u64::MAX);
    assert_eq!(elapsed_ms(u64::MAX as u128 + 1), u64::MAX);
    assert_eq!(elapsed_ms(u128::MAX), u64::MAX);
}

#[test]
fn blank_lines_are_skipped() {
    assert!(matches!(classify_line(""), LineAction::Skip));
    assert!(matches!(classify_line(" \t\r"), LineAction::Skip));
    assert!(matches!(classify_line("\u{3000}\u{a0}"), LineAction::Skip));
    assert!(matches!(classify_line("{\"cmd\":\"ping\",\"id\":1}"), LineAction::Parse));
    assert!(matches!(classify_line("  x  "), LineAction::Parse));
}

#[test]
fn bad_requests_are_answered_on_id_zero() {
    let r = bad_request("expected value at line 1 column 1");
    assert_eq!(
        encode_response(&r),
        "{\"id\":0,\"ok\":false,\"error\":\"bad request: expected value at line 1 column 1\"}"
    );
}

#[test]
fn only_shutdown_ends_the_session() {
    assert!(ends_session(&Request::Shutdown { id: 5 }));
    assert!(!ends_session(&Request::Ping { id: 5 }));
    assert!(!ends_session(&Request::Unload { id: 5 }));
    assert_eq!(Request::Shutdown { id: 5 }.id(), 5);
}

#[test]
fn each_parsed_line_gets_one_turn() {
    match dispatch(Err(String::from("missing field `id`"))) {
        Turn::Answer(r) => assert_eq!(
            encode_response(&r),
            "{\"id\":0,\"ok\":false,\"error\":\"bad request: missing field `id`\"}"
        ),
        other => panic!("a bad line is answered: {other:?}"),
    }
    match dispatch(Ok(Request::Shutdown { id: 5 })) {
        Turn::Finish(r) => assert_eq!(encode_response(&r), "{\"id\":5,\"ok\":true}"),
        other => panic!("a shutdown ends the loop: {other:?}"),
    }
    match dispatch(Ok(Request::Ping { id: 1 })) {
        Turn::Run(Request::Ping { id }) => assert_eq!(id, 1),
        other => panic!("a ping is run: {other:?}"),
    }
}
