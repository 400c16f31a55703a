use llm_engine::chat::{ChatMessage, ChatUsage};
use llm_engine::config::LlmConfig;
use llm_engine::decoder::StreamDecoder;
use llm_engine::errors::LlmError;
use llm_engine::generation::{batch_capacity_for, GenSession};
use llm_engine::prompt::build_prompt;
use llm_engine::registry::{check_llm_health, find_model_file, list_models, scan_available_models,
    ModelDirView};
use llm_engine::service::{LlmService, StartPlan};

fn msg(role: &str, content: &str) -> ChatMessage {
    ChatMessage { role: role.to_string(), content: content.to_string() }
}

fn dir_view(path: &str, exists: bool, files: &[&str]) -> ModelDirView {
    ModelDirView {
        path: path.to_string(),
        exists,
        files: files.iter().map(|f| f.to_string()).collect(),
    }
}

fn running_service(config: LlmConfig) -> LlmService {
    let mut service = LlmService::new(config);
    service.start_finish(Ok(())).unwrap();
    service
}

#[test]
fn test_chat_message_roles() {
    let user_msg = ChatMessage {
        role: "user".to_string(),
        content: "Test message".to_string(),
    };

    let assistant_msg = ChatMessage {
        role: "assistant".to_string(),
        content: "Test response".to_string(),
    };

    let system_msg = ChatMessage {
        role: "system".to_string(),
        content: "System prompt".to_string(),
    };

    assert_eq!(user_msg.role, "user");
    assert_eq!(assistant_msg.role, "assistant");
    assert_eq!(system_msg.role, "system");
}

#[test]
fn test_llm_service_not_running_initially() {
    let config = LlmConfig::default();
    let service = LlmService::new(config);

    assert!(!service.is_running());
    assert!(!service.get_status().is_running);
}

#[test]
fn test_default_config_values() {
    let config = LlmConfig::default();
    assert_eq!(config.model_name, "Llama-3.2-1B-Instruct-Q5_K_M");
    assert!(config.model_path.is_none());
    assert_eq!(config.temperature_permille, 800);
    assert_eq!(config.top_p_permille, 900);
    assert_eq!(config.max_tokens, 512);
    assert_eq!(config.ctx_size, 4096);
    assert!(config.n_threads.is_none());
    assert_eq!(config.n_gpu_layers, 0);
}

#[test]
fn test_stop_before_start_fails_with_not_running() {
    let mut service = LlmService::new(LlmConfig::default());
    let r = service.stop();
    assert_eq!(r.unwrap_err(), LlmError::NotRunning);
    assert!(!service.is_running());
}

#[test]
fn test_start_twice_is_idempotent_success() {
    let dir = dir_view("models", true, &["Llama-3.2-1B-Instruct-Q5_K_M.gguf"]);
    let mut service = LlmService::new(LlmConfig::default());

    let plan = service.start_plan(false, &dir).unwrap();
    match plan {
        StartPlan::Load(path) => {
            assert_eq!(path, "models/Llama-3.2-1B-Instruct-Q5_K_M.gguf");
        },
        StartPlan::AlreadyRunning(_) => panic!("expected a load plan"),
    }
    let first = service.start_finish(Ok(())).unwrap();
    assert_eq!(
        first,
        "LLM service initialized successfully with model: Llama-3.2-1B-Instruct-Q5_K_M (context size: 4096)"
    );
    assert!(service.is_running());

    let plan_again = service.start_plan(false, &dir).unwrap();
    match plan_again {
        StartPlan::AlreadyRunning(m) => {
            assert_eq!(m, "LLM service already initialized");
        },
        StartPlan::Load(_) => panic!("a running service must not reload the model"),
    }
    assert!(service.is_running());
}

#[test]
fn test_start_failure_leaves_service_uninitialized() {
    let mut service = LlmService::new(LlmConfig::default());
    let r = service.start_finish(Err(LlmError::ModelError("load failed".to_string())));
    assert_eq!(r.unwrap_err(), LlmError::ModelError("load failed".to_string()));
    assert!(!service.is_running());
}

#[test]
fn test_stop_releases_running_service() {
    let mut service = running_service(LlmConfig::default());
    assert!(service.is_running());
    let r = service.stop().unwrap();
    assert_eq!(r, "LLM service stopped successfully");
    assert!(!service.is_running());
    assert_eq!(service.stop().unwrap_err(), LlmError::NotRunning);
}

#[test]
fn test_status_shape() {
    let service = LlmService::new(LlmConfig::default());
    let status = service.get_status();
    assert!(!status.is_running);
    assert_eq!(status.port, 0);
    assert_eq!(status.model_name, "Llama-3.2-1B-Instruct-Q5_K_M");
    assert_eq!(status.base_url, "local");
}

#[test]
fn test_prompt_template_exact() {
    let msgs = vec![msg("system", "S"), msg("user", "U")];
    let p = build_prompt(&msgs);
    assert_eq!(
        p,
        "<|im_start|>system\nS<|im_end|>\n<|im_start|>user\nU<|im_end|>\n<|im_start|>assistant\n"
    );
}

#[test]
fn test_prompt_empty_conversation() {
    let msgs: Vec<ChatMessage> = vec![];
    assert_eq!(build_prompt(&msgs), "<|im_start|>assistant\n");
}

#[test]
fn test_unrecognized_role_uses_user_marker() {
    let msgs = vec![msg("tool", "T")];
    let p = build_prompt(&msgs);
    assert_eq!(p, "<|im_start|>user\nT<|im_end|>\n<|im_start|>assistant\n");
}

#[test]
fn test_model_not_found_lists_available_models() {
    let dir = dir_view("models", true, &["alpha.gguf", "beta.bin"]);
    let config = LlmConfig::default();
    let r = find_model_file(&config, false, &dir, &"gamma".to_string());
    match r.unwrap_err() {
        LlmError::ModelError(m) => {
            assert_eq!(m, "Model 'gamma' not found in models. Available models: [alpha, beta]");
        },
        other => panic!("expected ModelError, got {:?}", other),
    }
}

#[test]
fn test_model_resolution_prefers_gguf_then_bin_then_literal() {
    let config = LlmConfig::default();
    let name = "m".to_string();
    let d1 = dir_view("models", true, &["m.gguf", "m.bin", "m"]);
    assert_eq!(find_model_file(&config, false, &d1, &name).unwrap(), "models/m.gguf");
    let d2 = dir_view("models", true, &["m.bin", "m"]);
    assert_eq!(find_model_file(&config, false, &d2, &name).unwrap(), "models/m.bin");
    let d3 = dir_view("models", true, &["m"]);
    assert_eq!(find_model_file(&config, false, &d3, &name).unwrap(), "models/m");
}

#[test]
fn test_explicit_model_path_wins_when_it_exists() {
    let mut config = LlmConfig::default();
    config.model_path = Some("elsewhere/custom.gguf".to_string());
    let dir = dir_view("models", true, &["other.gguf"]);
    let r = find_model_file(&config, true, &dir, &"other".to_string());
    assert_eq!(r.unwrap(), "elsewhere/custom.gguf");
}

#[test]
fn test_missing_directory_fails_resolution() {
    let dir = dir_view("models", false, &[]);
    let config = LlmConfig::default();
    let r = find_model_file(&config, false, &dir, &"m".to_string());
    match r.unwrap_err() {
        LlmError::ModelError(m) => {
            assert_eq!(m, "Models directory does not exist: models");
        },
        other => panic!("expected ModelError, got {:?}", other),
    }
}

#[test]
fn test_list_models_empty_directory_is_empty_list() {
    let dir = dir_view("models", true, &[]);
    let resp = list_models(&dir).unwrap();
    assert_eq!(resp.object, "list");
    assert!(resp.data.is_empty());
}

#[test]
fn test_list_models_missing_directory_is_config_error() {
    let dir = dir_view("models", false, &[]);
    match list_models(&dir).unwrap_err() {
        LlmError::ConfigError(m) => {
            assert_eq!(
                m,
                "Models directory does not exist: models. Please create the directory and add GGUF model files."
            );
        },
        other => panic!("expected ConfigError, got {:?}", other),
    }
}

#[test]
fn test_scan_skips_unrecognized_extensions() {
    let dir = dir_view("models", true, &["a.gguf", "notes.txt", "b.bin", "README"]);
    let models = scan_available_models(&dir, 42);
    assert_eq!(models.len(), 2);
    assert_eq!(models[0].id, "a");
    assert_eq!(models[1].id, "b");
    assert_eq!(models[0].object, "model");
    assert_eq!(models[0].owned_by, "local");
    assert_eq!(models[0].created, 42);
}

#[test]
fn test_health_report_names_models() {
    let dir = dir_view("models", true, &["a.gguf", "b.bin"]);
    let m = check_llm_health(&dir).unwrap();
    assert_eq!(m, "Found 2 model(s) in models: [a, b]");
}

#[test]
fn test_health_empty_directory_is_model_error() {
    let dir = dir_view("models", true, &["notes.txt"]);
    match check_llm_health(&dir).unwrap_err() {
        LlmError::ModelError(m) => {
            assert_eq!(
                m,
                "No GGUF model files found in models. Please add .gguf model files to this directory."
            );
        },
        other => panic!("expected ModelError, got {:?}", other),
    }
}

#[test]
fn test_generation_stops_at_length_without_end_marker() {
    let mut session = GenSession::new(3, 5);
    let token = vec![b'a'];
    let mut steps = 0;
    while session.wants_more_now() {
        session.step(false, &token);
        steps += 1;
        assert!(steps <= 6);
    }
    assert_eq!(steps, 6);
    assert_eq!(session.stop_reason(), "length");
    assert_eq!(session.content(), "aaaaaa");
    let usage = session.usage();
    assert_eq!(usage.prompt_tokens, 3);
    assert_eq!(usage.completion_tokens, 6);
    assert_eq!(usage.total_tokens, 9);
}

#[test]
fn test_generation_stops_at_end_marker() {
    let mut session = GenSession::new(2, 8);
    session.step(false, &vec![b'h', b'i']);
    assert!(session.wants_more_now());
    session.step(true, &Vec::new());
    assert!(!session.wants_more_now());
    assert_eq!(session.stop_reason(), "stop");
    assert_eq!(session.content(), "hi");
    let usage = session.usage();
    assert_eq!(usage.prompt_tokens, 2);
    assert_eq!(usage.completion_tokens, 1);
    assert_eq!(usage.total_tokens, 3);
}

#[test]
fn test_usage_total_is_prompt_plus_completion() {
    let mut session = GenSession::new(7, 2);
    while session.wants_more_now() {
        session.step(false, &vec![b'x']);
    }
    let usage = session.usage();
    assert_eq!(usage.total_tokens, usage.prompt_tokens + usage.completion_tokens);
}

#[test]
fn test_response_assembly() {
    let service = running_service(LlmConfig::default());
    let usage = ChatUsage { prompt_tokens: 2, completion_tokens: 3, total_tokens: 5 };
    let resp = service.assemble_response("hello".to_string(), "stop".to_string(), usage);
    assert_eq!(resp.id, "chat-completion");
    assert_eq!(resp.object, "chat.completion");
    assert_eq!(resp.model, "Llama-3.2-1B-Instruct-Q5_K_M");
    assert_eq!(resp.choices.len(), 1);
    assert_eq!(resp.choices[0].index, 0);
    assert_eq!(resp.choices[0].message.role, "assistant");
    assert_eq!(resp.choices[0].message.content, "hello");
    assert_eq!(resp.choices[0].finish_reason.as_deref(), Some("stop"));
    let u = resp.usage.unwrap();
    assert_eq!(u.total_tokens, u.prompt_tokens + u.completion_tokens);
    assert_eq!(u.total_tokens, 5);
}

#[test]
fn test_chat_prompt_requires_running_service() {
    let service = LlmService::new(LlmConfig::default());
    let request = llm_engine::chat::ChatRequest {
        model: "m".to_string(),
        messages: vec![msg("user", "hi")],
        temperature_permille: None,
        top_p_permille: None,
        max_tokens: None,
        stream: None,
    };
    assert_eq!(service.chat_prompt_for(&request).unwrap_err(), LlmError::NotRunning);
    let running = running_service(LlmConfig::default());
    assert_eq!(
        running.chat_prompt_for(&request).unwrap(),
        "<|im_start|>user\nhi<|im_end|>\n<|im_start|>assistant\n"
    );
}

#[test]
fn test_effective_max_tokens_override() {
    let service = LlmService::new(LlmConfig::default());
    let mut request = llm_engine::chat::ChatRequest {
        model: "m".to_string(),
        messages: vec![],
        temperature_permille: None,
        top_p_permille: None,
        max_tokens: None,
        stream: None,
    };
    assert_eq!(service.effective_max_tokens(&request), 512);
    request.max_tokens = Some(9);
    assert_eq!(service.effective_max_tokens(&request), 9);
}

#[test]
fn test_begin_generation_requires_running_service() {
    let service = LlmService::new(LlmConfig::default());
    match service.begin_generation(10, 5) {
        Err(LlmError::NotRunning) => {},
        _ => panic!("expected NotRunning"),
    }
}

#[test]
fn test_begin_generation_rejects_zero_window() {
    let mut config = LlmConfig::default();
    config.ctx_size = 0;
    let service = running_service(config);
    match service.begin_generation(1, 1) {
        Err(LlmError::ConfigError(m)) => {
            assert_eq!(m, "Context window size must be positive");
        },
        _ => panic!("expected ConfigError"),
    }
}

#[test]
fn test_begin_generation_rejects_window_overflow() {
    let service = running_service(LlmConfig::default());
    match service.begin_generation(5000, 10) {
        Err(LlmError::ContextError(m)) => {
            assert_eq!(m, "Prompt of 5000 tokens exceeds the context window of 4096 tokens");
        },
        _ => panic!("expected ContextError"),
    }
}

#[test]
fn test_batch_capacity_covers_prompt() {
    assert_eq!(batch_capacity_for(0), 512);
    assert_eq!(batch_capacity_for(512), 512);
    assert_eq!(batch_capacity_for(600), 600);
}

#[test]
fn test_error_messages() {
    assert_eq!(LlmError::NotRunning.message(), "Service not running");
    assert_eq!(LlmError::NotInitialized.message(), "Service not initialized");
    assert_eq!(
        LlmError::ConfigError("bad".to_string()).message(),
        "Configuration error: bad"
    );
    assert_eq!(LlmError::ModelError("m".to_string()).message(), "Model error: m");
    assert_eq!(LlmError::BatchError("b".to_string()).message(), "Batch error: b");
    assert_eq!(LlmError::ContextError("c".to_string()).message(), "Context error: c");
    assert_eq!(LlmError::DecodeError("d".to_string()).message(), "Decode error: d");
    assert_eq!(
        LlmError::TokenizationError("t".to_string()).message(),
        "Tokenization error: t"
    );
    assert_eq!(LlmError::IoError("i".to_string()).message(), "IO error: i");
    assert_eq!(
        LlmError::SerializationError("s".to_string()).message(),
        "Serialization error: s"
    );
}

#[test]
fn test_service_listing_and_health_methods() {
    let service = LlmService::new(LlmConfig::default());
    let dir = dir_view("models", true, &["a.gguf"]);
    let listing = service.list_models(&dir).unwrap();
    assert_eq!(listing.data.len(), 1);
    assert_eq!(listing.data[0].id, "a");
    assert_eq!(service.check_llm_health(&dir).unwrap(), "Found 1 model(s) in models: [a]");
}
