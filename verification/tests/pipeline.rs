use llm_prompt_gen::errors::ErrorKind;
use llm_prompt_gen::provider::{sample_filename, temp_to_dec, GenerateAction, Provider, RemoteModel};
use llm_prompt_gen::registry::resolve;
use llm_prompt_gen::relay::{
    build_request_prompt, deliver_reply, on_close, on_message, ConnState, GenerationRequest,
    MessageOutcome, QueuedRequest, RequestQueue,
};

fn request(problem: &str) -> GenerationRequest {
    GenerationRequest {
        priming: "pri".to_string(),
        problem: problem.to_string(),
        solution: "sol".to_string(),
    }
}

fn queued(conn_id: u64, problem: &str) -> QueuedRequest {
    QueuedRequest { conn_id, request: request(problem) }
}

#[test]
fn estimate_token_num_is_deterministic() {
    let p = Provider::Simulated;
    let first = p.estimate_token_num("fn foo(a: u32) -> u32");
    let second = p.estimate_token_num("fn foo(a: u32) -> u32");
    assert_eq!(first, second);
}

#[test]
fn estimate_token_num_exact_values() {
    let p = Provider::Simulated;
    // one delimiter (the space): (1 + 1) * 3 / 2
    assert_eq!(p.estimate_token_num("hello world"), 3);
    // no delimiters: (0 + 1) * 3 / 2
    assert_eq!(p.estimate_token_num("hello"), 1);
    assert_eq!(p.estimate_token_num(""), 1);
}

#[test]
fn generate_rejects_invalid_arguments() {
    let p = Provider::Simulated;
    assert!(matches!(p.generate("p", "d", 0, 800), Err(ErrorKind::InvalidArgument)));
    assert!(matches!(p.generate("p", "d", 1, 2001), Err(ErrorKind::InvalidArgument)));
}

#[test]
fn simulated_generate_names_three_artifacts() {
    let p = Provider::Simulated;
    let action = p.generate("prompt", "out", 3, 800).unwrap();
    match action {
        GenerateAction::WriteSamples(v) => {
            assert_eq!(v.len(), 3);
            assert_eq!(v[0].filename, "01.rawoutput");
            assert_eq!(v[1].filename, "02.rawoutput");
            assert_eq!(v[2].filename, "03.rawoutput");
            assert_eq!(v[0].content, "Sample output from GPT 1");
            assert_eq!(v[2].content, "Sample output from GPT 3");
            assert_eq!(v[0].index, 1);
            assert_eq!(v[2].index, 3);
        },
        _ => panic!("simulated backend must synthesize samples"),
    }
}

#[test]
fn external_binary_without_path_is_unavailable() {
    let p = Provider::ExternalBinary {
        name: "google-ai".to_string(),
        max_tokens: 1500,
        ai_binary: None,
    };
    assert!(matches!(p.generate("p", "d", 1, 800), Err(ErrorKind::BackendUnavailable)));
}

#[test]
fn external_binary_encodes_invocation_flags() {
    let p = Provider::ExternalBinary {
        name: "google-ai".to_string(),
        max_tokens: 1500,
        ai_binary: Some("/opt/ai".to_string()),
    };
    let action = p.generate("hello", "/tmp/out", 2, 800).unwrap();
    match action {
        GenerateAction::SpawnProcess { binary, args } => {
            assert_eq!(binary, "/opt/ai");
            assert_eq!(
                args,
                vec![
                    "-model=google-ai".to_string(),
                    "-prompt=hello".to_string(),
                    "-response=/tmp/out".to_string(),
                    "-max-tokens=1500".to_string(),
                    "-expected-samples=2".to_string(),
                    "-temperature=0.8".to_string(),
                ]
            );
        },
        _ => panic!("external backend must spawn a process"),
    }
}

#[test]
fn remote_generate_yields_chat_call() {
    let p = Provider::Remote(RemoteModel::GeminiPro);
    let action = p.generate("ask", "d", 4, 1500).unwrap();
    match action {
        GenerateAction::RemoteCall { model, prompt, sample_count, temperature_milli } => {
            assert_eq!(model, "vertex_ai_gemini-pro");
            assert_eq!(prompt, "ask");
            assert_eq!(sample_count, 4);
            assert_eq!(temperature_milli, 1500);
        },
        _ => panic!("remote backend must yield a chat call"),
    }
}

#[test]
fn artifact_names_pad_to_two_digits() {
    assert_eq!(sample_filename(5), "05.rawoutput");
    assert_eq!(sample_filename(12), "12.rawoutput");
    assert_eq!(sample_filename(120), "120.rawoutput");
}

#[test]
fn temperature_rendering_drops_trailing_zeros() {
    assert_eq!(temp_to_dec(0), "0");
    assert_eq!(temp_to_dec(800), "0.8");
    assert_eq!(temp_to_dec(850), "0.85");
    assert_eq!(temp_to_dec(805), "0.805");
    assert_eq!(temp_to_dec(80), "0.08");
    assert_eq!(temp_to_dec(8), "0.008");
    assert_eq!(temp_to_dec(1000), "1");
    assert_eq!(temp_to_dec(1500), "1.5");
    assert_eq!(temp_to_dec(2000), "2");
}

#[test]
fn providers_report_identity_and_window() {
    assert_eq!(Provider::Simulated.identify(), "gpt");
    assert_eq!(Provider::Simulated.context_window(), 2000);
    let ext = Provider::ExternalBinary {
        name: "google-ai".to_string(),
        max_tokens: 1500,
        ai_binary: None,
    };
    assert_eq!(ext.identify(), "google-ai");
    assert_eq!(ext.context_window(), 1500);
    assert_eq!(Provider::Remote(RemoteModel::CodeBison).identify(), "vertex_ai_code-bison");
    assert_eq!(Provider::Remote(RemoteModel::CodeBison32k).context_window(), 32768);
}

#[test]
fn registry_resolves_known_models() {
    assert!(matches!(resolve("gpt", None), Ok(Provider::Simulated)));
    assert!(matches!(resolve("gpt-4", None), Err(ErrorKind::NotImplemented)));
    assert!(matches!(
        resolve("vertex_ai_code-bison", None),
        Ok(Provider::Remote(RemoteModel::CodeBison))
    ));
    assert!(matches!(
        resolve("vertex_ai_code-bison-32k", None),
        Ok(Provider::Remote(RemoteModel::CodeBison32k))
    ));
    assert!(matches!(
        resolve("vertex_ai_gemini-pro", None),
        Ok(Provider::Remote(RemoteModel::GeminiPro))
    ));
    assert!(matches!(resolve("nonesuch", None), Err(ErrorKind::UnknownModel)));
    match resolve("google-ai", Some("/opt/ai".to_string())) {
        Ok(Provider::ExternalBinary { name, max_tokens, ai_binary }) => {
            assert_eq!(name, "google-ai");
            assert_eq!(max_tokens, 1500);
            assert_eq!(ai_binary, Some("/opt/ai".to_string()));
        },
        _ => panic!("google-ai must resolve to the external-binary backend"),
    }
}

#[test]
fn queue_serves_requests_in_fifo_order() {
    let mut q = RequestQueue::new(8);
    q.enqueue(queued(1, "first")).unwrap();
    q.enqueue(queued(1, "second")).unwrap();
    let a = q.dequeue().unwrap();
    let b = q.dequeue().unwrap();
    assert_eq!(a.request.problem, "first");
    assert_eq!(b.request.problem, "second");
    assert!(q.dequeue().is_none());
}

#[test]
fn full_queue_rejects_without_dropping() {
    let mut q = RequestQueue::new(1);
    q.enqueue(queued(1, "kept")).unwrap();
    let res = q.enqueue(queued(2, "rejected"));
    assert_eq!(res, Err(ErrorKind::QueueFull));
    assert_eq!(q.len(), 1);
    let front = q.dequeue().unwrap();
    assert_eq!(front.request.problem, "kept");
}

#[test]
fn default_capacity_is_thirty_two() {
    let q = RequestQueue::with_default_capacity();
    assert_eq!(q.capacity(), 32);
    assert_eq!(q.len(), 0);
}

#[test]
fn closed_connection_request_still_completes() {
    let mut q = RequestQueue::new(4);
    let (state, outcome) = on_message(ConnState::Open, Some(request("work")), 7, &mut q);
    assert_eq!(outcome, MessageOutcome::Enqueued);
    assert_eq!(state, ConnState::Receiving);
    let state = on_close(state);
    assert_eq!(state, ConnState::Closed);
    // the queued request is untouched by the close and still completes
    let job = q.dequeue().unwrap();
    assert_eq!(job.conn_id, 7);
    assert_eq!(job.request.problem, "work");
    // only its reply is discarded
    assert_eq!(deliver_reply(state, "reply".to_string()), None);
    assert_eq!(deliver_reply(ConnState::Receiving, "reply".to_string()), Some("reply".to_string()));
}

#[test]
fn malformed_messages_are_dropped_not_fatal() {
    let mut q = RequestQueue::new(4);
    let (state, outcome) = on_message(ConnState::Open, None, 3, &mut q);
    assert_eq!(state, ConnState::Receiving);
    assert_eq!(outcome, MessageOutcome::DroppedMalformed);
    assert_eq!(q.len(), 0);
}

#[test]
fn messages_on_closed_connection_are_ignored() {
    let mut q = RequestQueue::new(4);
    let (state, outcome) = on_message(ConnState::Closed, Some(request("late")), 3, &mut q);
    assert_eq!(state, ConnState::Closed);
    assert_eq!(outcome, MessageOutcome::IgnoredClosed);
    assert_eq!(q.len(), 0);
}

#[test]
fn full_queue_rejects_inbound_message() {
    let mut q = RequestQueue::new(1);
    q.enqueue(queued(1, "only")).unwrap();
    let (_, outcome) = on_message(ConnState::Receiving, Some(request("extra")), 2, &mut q);
    assert_eq!(outcome, MessageOutcome::RejectedQueueFull);
    assert_eq!(q.len(), 1);
}

#[test]
fn worker_prompt_orders_request_fields() {
    let p = build_request_prompt(&request("prob"));
    assert_eq!(p, "pri\nprob\nsol\n");
}

#[test]
fn error_kinds_have_messages() {
    assert_eq!(ErrorKind::InvalidArgument.message(), "invalid argument");
    assert_eq!(ErrorKind::MissingTemplate.message(), "missing template");
    assert_eq!(ErrorKind::UnknownModel.message(), "unknown model");
    assert_eq!(ErrorKind::BackendUnavailable.message(), "backend unavailable");
    assert_eq!(ErrorKind::SpawnFailed.message(), "spawn failed");
    assert_eq!(ErrorKind::GenerationFailed.message(), "generation failed");
    assert_eq!(ErrorKind::NoSolutionMarker.message(), "no solution marker");
    assert_eq!(ErrorKind::QueueFull.message(), "queue full");
    assert_eq!(ErrorKind::IO.message(), "i/o error");
    assert_eq!(ErrorKind::NotImplemented.message(), "not implemented");
}
