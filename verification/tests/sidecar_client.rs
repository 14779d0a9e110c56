use handy_llm::client::{ClientError, Delivery, Launch, PromptStyle, SidecarClient};
use handy_llm::json::ReplyFields;

fn client() -> SidecarClient {
    SidecarClient::new(String::from("no-such-sidecar-binary"))
}

fn accepted() -> ReplyFields {
    ReplyFields { ok: Some(true), error: None, text: None }
}

#[test]
fn a_missing_binary_is_reported_not_panicked() {
    let mut client = client();
    let err = client.ensure_started(Launch::Missing).expect_err("must fail");
    assert!(err.message().contains("not found"));
    assert!(!client.is_running());
}

#[test]
fn an_unstarted_client_is_not_ready() {
    let client = client();
    assert!(!client.is_ready());
    assert!(client.loaded_model().is_none());
}

#[test]
fn generate_fails_cleanly_without_a_process() {
    let mut client = client();
    let _line = client.generate_command("s", "u", 10);
    let reply = client.ensure_started(Launch::Missing).map(|_| accepted());
    let err = client.generate(reply).expect_err("must fail without a sidecar");
    assert!(err.message().contains("not found"));
}

#[test]
fn request_ids_are_unique() {
    let mut client = client();
    let a = client.next_request_id();
    let b = client.next_request_id();
    assert_ne!(a, b);
}

#[test]
fn shutdown_on_an_unstarted_client_is_harmless() {
    let mut client = client();
    assert!(client.shutdown().is_none());
    assert!(client.unload_command().is_none());
    assert!(!client.is_running());
}

#[test]
fn a_new_client_starts_at_id_one_with_the_instructed_style() {
    let mut client = SidecarClient::new(String::from("bin/handier-llm"));
    assert_eq!(client.exe(), "bin/handier-llm");
    assert_eq!(client.prompt_style(), PromptStyle::Instructed);
    assert!(!client.reasoning());
    assert_eq!(client.next_request_id(), 1);
    assert_eq!(client.next_request_id(), 2);
}

#[test]
fn the_not_found_message_names_the_binary() {
    let mut client = client();
    let err = client.ensure_started(Launch::Missing).unwrap_err();
    assert_eq!(err.message(), "sidecar binary not found at no-such-sidecar-binary");
}

#[test]
fn a_failed_spawn_names_the_binary() {
    let mut client = client();
    let err = client
        .ensure_started(Launch::SpawnFailed(String::from("permission denied")))
        .unwrap_err();
    assert_eq!(err.message(), "failed to start sidecar at no-such-sidecar-binary");
    assert!(matches!(err, ClientError::SpawnFailed { .. }));
    let err = client.ensure_started(Launch::StdinUnavailable).unwrap_err();
    assert_eq!(err.message(), "sidecar stdin unavailable");
    let err = client.ensure_started(Launch::StdoutUnavailable).unwrap_err();
    assert_eq!(err.message(), "sidecar stdout unavailable");
    assert!(!client.is_running());
}

#[test]
fn a_running_process_is_not_started_again() {
    let mut client = client();
    assert!(client.ensure_started(Launch::Started).is_ok());
    assert!(client.is_running());
    // Once running, what a start attempt would have found is not read.
    assert!(client.ensure_started(Launch::Missing).is_ok());
    assert!(client.is_running());
}

#[test]
fn a_request_without_a_process_is_refused() {
    let mut client = client();
    let err = client.request(Delivery::Replied(String::from("{\"ok\":true}"))).unwrap_err();
    assert_eq!(err.message(), "sidecar is not running");
}

#[test]
fn a_timeout_gives_up_on_the_process() {
    let mut client = client();
    client.ensure_started(Launch::Started).unwrap();
    let err = client.request(Delivery::TimedOut).unwrap_err();
    assert_eq!(err.message(), "sidecar timed out after 120s");
    assert!(!client.is_running());
}

#[test]
fn a_dead_process_is_given_up_and_restarted() {
    let mut client = client();
    client.ensure_started(Launch::Started).unwrap();
    let err = client.request(Delivery::Disconnected).unwrap_err();
    assert_eq!(err.message(), "sidecar exited unexpectedly");
    assert!(!client.is_running());
    assert!(client.ensure_started(Launch::Started).is_ok());
    assert!(client.is_running());
}

#[test]
fn write_failures_keep_the_process() {
    let mut client = client();
    client.ensure_started(Launch::Started).unwrap();
    let err = client.request(Delivery::WriteFailed(String::from("broken pipe"))).unwrap_err();
    assert_eq!(err.message(), "failed to write to sidecar");
    let err = client.request(Delivery::FlushFailed(String::from("broken pipe"))).unwrap_err();
    assert_eq!(err.message(), "failed to flush to sidecar");
    assert!(client.is_running());
}

#[test]
fn replies_are_trimmed_parsed_and_decided() {
    let mut client = client();
    client.ensure_started(Launch::Started).unwrap();
    let ok = client
        .request(Delivery::Replied(String::from(
            "  {\"id\":3,\"ok\":true,\"text\":\"Send it to Jane.\",\"elapsed_ms\":132}\r\n",
        )))
        .unwrap();
    assert_eq!(ok.ok, Some(true));
    assert_eq!(ok.text.as_deref(), Some("Send it to Jane."));

    let err = client
        .request(Delivery::Replied(String::from(
            "{\"id\":3,\"ok\":false,\"error\":\"no model is loaded\"}",
        )))
        .unwrap_err();
    assert_eq!(err.message(), "no model is loaded");

    let err = client.request(Delivery::Replied(String::from("{\"id\":3}"))).unwrap_err();
    assert_eq!(err.message(), "unknown sidecar error");

    let err = client.request(Delivery::Replied(String::from("not json"))).unwrap_err();
    assert_eq!(err.message(), "sidecar sent malformed JSON");

    // A string "true" is not a boolean.
    let err = client
        .request(Delivery::Replied(String::from("{\"ok\":\"true\"}")))
        .unwrap_err();
    assert_eq!(err.message(), "unknown sidecar error");
    assert!(client.is_running());
}

#[test]
fn loading_the_loaded_model_again_is_a_no_op() {
    let mut client = client();
    let line = client.load_command("C:/models/model.gguf", None).expect("first load sends");
    assert_eq!(line, "{\"cmd\":\"load\",\"id\":1,\"path\":\"C:/models/model.gguf\"}");
    client
        .load_model(String::from("C:/models/model.gguf"), true, PromptStyle::Alpaca, Ok(accepted()))
        .unwrap();
    assert!(client.is_ready());
    assert_eq!(client.loaded_model().as_deref(), Some("C:/models/model.gguf"));
    assert!(client.reasoning());
    assert_eq!(client.prompt_style(), PromptStyle::Alpaca);
    assert!(client.load_command("C:/models/model.gguf", None).is_none());
    // No id was taken by the no-op.
    assert_eq!(client.next_request_id(), 2);
}

#[test]
fn load_lines_carry_gpu_layers_when_given() {
    let mut client = client();
    let line = client.load_command("m.gguf", Some(0)).unwrap();
    assert_eq!(line, "{\"cmd\":\"load\",\"id\":1,\"path\":\"m.gguf\",\"gpu_layers\":0}");
    let line = client.prepare_load(false, "C:\\models\\a \"b\".gguf", Some(33)).unwrap();
    assert_eq!(
        line,
        "{\"cmd\":\"load\",\"id\":2,\"path\":\"C:\\\\models\\\\a \\\"b\\\".gguf\",\"gpu_layers\":33}"
    );
    assert!(client.prepare_load(true, "m.gguf", None).is_none());
}

#[test]
fn a_failed_load_changes_nothing_and_names_the_model() {
    let mut client = client();
    let _ = client.load_command("m.gguf", None);
    let err = client
        .load_model(String::from("m.gguf"), true, PromptStyle::ChatTuned, Err(ClientError::TimedOut))
        .unwrap_err();
    assert_eq!(err.message(), "failed to load m.gguf");
    assert!(matches!(err.cause, ClientError::TimedOut));
    assert!(!client.is_ready());
    assert!(!client.reasoning());
    assert_eq!(client.prompt_style(), PromptStyle::Instructed);
}

#[test]
fn unload_clears_readiness() {
    let mut client = client();
    client.ensure_started(Launch::Started).unwrap();
    client.load_model(String::from("m.gguf"), false, PromptStyle::Instructed, Ok(accepted())).unwrap();
    let line = client.unload_command().expect("running process gets an unload");
    assert_eq!(line, "{\"cmd\":\"unload\",\"id\":1}");
    let err = client.unload_model(Err(ClientError::Exited)).unwrap_err();
    assert_eq!(err.message(), "sidecar exited unexpectedly");
    assert!(!client.is_ready());
    assert!(client.is_running());
}

#[test]
fn shutdown_stops_the_process_and_forgets_the_model() {
    let mut client = client();
    client.ensure_started(Launch::Started).unwrap();
    client.load_model(String::from("m.gguf"), false, PromptStyle::Instructed, Ok(accepted())).unwrap();
    let line = client.shutdown().expect("a running process is asked to stop");
    assert_eq!(line, "{\"cmd\":\"shutdown\",\"id\":1}");
    assert!(!client.is_running());
    assert!(!client.is_ready());
    // The next request starts a fresh process.
    assert!(client.ensure_started(Launch::Started).is_ok());
    assert!(client.is_running());
}

#[test]
fn generation_asks_for_the_soft_switch_for_reasoning_models() {
    let mut client = client();
    let line = client.generate_command("sys", "um so", 200);
    assert_eq!(
        line,
        "{\"cmd\":\"generate\",\"id\":1,\"system\":\"sys\",\"user\":\"um so\",\"max_tokens\":200,\"no_think\":false}"
    );
    client.load_model(String::from("q.gguf"), true, PromptStyle::Instructed, Ok(accepted())).unwrap();
    let line = client.generate_command("", "line\nbreak", 7);
    assert_eq!(
        line,
        "{\"cmd\":\"generate\",\"id\":2,\"system\":\"\",\"user\":\"line\\nbreak\",\"max_tokens\":7,\"no_think\":true}"
    );
}

#[test]
fn generate_takes_the_text_of_the_reply() {
    let client = client();
    let reply = ReplyFields { ok: Some(true), error: None, text: Some(String::from("Send it to Jane.")) };
    assert_eq!(client.generate(Ok(reply)).unwrap(), "Send it to Jane.");
    let err = client.generate(Ok(accepted())).unwrap_err();
    assert_eq!(err.message(), "sidecar reply had no text");
}

#[test]
fn a_model_does_not_outlive_its_process() {
    let mut client = client();
    client.ensure_started(Launch::Started).unwrap();
    let line = client.load_command("m.gguf", None).unwrap();
    assert_eq!(line, "{\"cmd\":\"load\",\"id\":1,\"path\":\"m.gguf\"}");
    client.load_model(String::from("m.gguf"), false, PromptStyle::Instructed, Ok(accepted())).unwrap();
    assert!(client.is_ready());
    let _ = client.generate_command("s", "u", 10);
    assert!(client.request(Delivery::TimedOut).is_err());
    assert!(!client.is_running());
    assert!(!client.is_ready());
    // The fresh process is sent the model again.
    client.ensure_started(Launch::Started).unwrap();
    assert_eq!(
        client.load_command("m.gguf", None).as_deref(),
        Some("{\"cmd\":\"load\",\"id\":3,\"path\":\"m.gguf\"}")
    );
}

#[test]
fn a_dead_process_takes_its_model_with_it() {
    let mut client = client();
    client.ensure_started(Launch::Started).unwrap();
    client.load_model(String::from("m.gguf"), true, PromptStyle::ChatTuned, Ok(accepted())).unwrap();
    assert!(client.request(Delivery::Disconnected).is_err());
    assert!(client.loaded_model().is_none());
    // The prompt style stays that of the last successful load.
    assert_eq!(client.prompt_style(), PromptStyle::ChatTuned);
}

#[test]
fn unloading_a_stopped_handle_leaves_no_model() {
    let mut client = client();
    client.load_model(String::from("m.gguf"), false, PromptStyle::Instructed, Ok(accepted())).unwrap();
    assert!(client.unload_command().is_none());
    assert!(!client.is_ready());
    assert!(!client.is_running());
    // No id was taken.
    assert_eq!(client.next_request_id(), 1);
}

#[test]
fn the_loaded_model_is_compared_as_a_path() {
    let mut client = client();
    client.load_model(String::from("models/m.gguf"), false, PromptStyle::Instructed, Ok(accepted())).unwrap();
    // The same path spelled with a doubled separator is the same model.
    assert!(client.load_command("models//m.gguf", None).is_none());
    assert!(client.load_command("models/n.gguf", None).is_some());
}
