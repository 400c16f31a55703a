//! The service lifecycle and the per-request orchestration.
//!
//! The service is a state machine over two externally observable states,
//! `Uninitialized` and `Running`.  The native runtime handles (compute
//! backend, loaded model weights) live with the embedding application; the
//! service decides which operations are legal, resolves the model to load,
//! and commits or rolls back the transition once the application reports
//! the load's outcome.  `start` and `stop` are atomic from the caller's
//! perspective: a failed start leaves the service fully `Uninitialized`.

use vstd::prelude::*;
use crate::chat::{ChatChoice, ChatMessage, ChatRequest, ChatResponse, ChatUsage,
    LlmServiceStatus};
use crate::config::LlmConfig;
use crate::errors::LlmError;
use crate::generation::GenSession;
use crate::prompt::{build_prompt, chat_prompt};
use crate::registry::{find_model_file, joined, missing_dir_message, not_found_message,
    resolved_file, ModelDirView};
use crate::textutil::{decimal_rep, u64_to_string};

verus! {

/// What `start` decided: the service is already running (with the
/// informational message it reports), or the application should load the
/// model at the resolved path.
#[derive(Debug, Clone)]
pub enum StartPlan {
    AlreadyRunning(String),
    Load(String),
}

/// The message reported by a successful start.
pub open spec fn start_success_message(model_name: Seq<char>, ctx_size: u32) -> Seq<char> {
    "LLM service initialized successfully with model: "@ + model_name + " (context size: "@
        + decimal_rep(ctx_size as nat) + ")"@
}

/// The diagnostic for a request whose prompt alone exceeds the context
/// window.
pub open spec fn window_overflow_message(prompt_tokens: u32, ctx_size: u32) -> Seq<char> {
    "Prompt of "@ + decimal_rep(prompt_tokens as nat) + " tokens exceeds the context window of "@
        + decimal_rep(ctx_size as nat) + " tokens"@
}

/// The inference service: its immutable configuration and its lifecycle
/// state.
pub struct LlmService {
    config: LlmConfig,
    is_initialized: bool,
}

impl LlmService {
    /// True in the `Running` state.
    pub closed spec fn running(&self) -> bool {
        self.is_initialized
    }

    /// The configuration the instance was built over.
    pub closed spec fn config_spec(&self) -> LlmConfig {
        self.config
    }

    /// The configuration the instance was built over.
    pub fn config(&self) -> (c: &LlmConfig)
        ensures
            *c == self.config_spec(),
    {
        &self.config
    }

    /// A new service instance over the given configuration, in the
    /// `Uninitialized` state.
    pub fn new(config: LlmConfig) -> (s: Self)
        ensures
            s.config_spec() == config,
            !s.running(),
    {
        LlmService { config, is_initialized: false }
    }

    /// True in the `Running` state.
    pub fn is_running(&self) -> (b: bool)
        ensures
            b == self.running(),
    {
        self.is_initialized
    }

    /// A snapshot of the lifecycle state.  There is no network endpoint for
    /// a local engine, so the port is 0 and the locator is `"local"`.
    pub fn get_status(&self) -> (st: LlmServiceStatus)
        ensures
            st.is_running == self.running(),
            st.port == 0,
            st.model_name@ == self.config_spec().model_name@,
            st.base_url@ == "local"@,
    {
        LlmServiceStatus {
            is_running: self.is_initialized,
            port: 0,
            model_name: self.config.model_name.clone(),
            base_url: String::from_str("local"),
        }
    }

    /// The first half of `start`: decides what to do.
    ///
    /// Starting while already running is not an error: it reports success
    /// without reloading anything.  Otherwise the configured model is
    /// resolved through the registry; resolution failure is the `start`
    /// failure, and the service stays `Uninitialized`.
    pub fn start_plan(&self, explicit_path_exists: bool, dir: &ModelDirView) -> (r: Result<
        StartPlan,
        LlmError,
    >)
        ensures
            self.running() ==> (r matches Ok(StartPlan::AlreadyRunning(m)) && m@
                == "LLM service already initialized"@),
            (!self.running() && self.config_spec().model_path is Some && explicit_path_exists) ==> (
            r matches Ok(StartPlan::Load(p)) && p@ == self.config_spec().model_path->0@),
            (!self.running() && !(self.config_spec().model_path is Some && explicit_path_exists)) ==> {
                if !dir.exists {
                    r matches Err(LlmError::ModelError(m)) && m@ == missing_dir_message(dir.path@)
                } else {
                    match resolved_file(dir.files@, self.config_spec().model_name@) {
                        Option::Some(f) => r matches Ok(StartPlan::Load(p)) && p@ == joined(
                            dir.path@,
                            f,
                        ),
                        Option::None => r matches Err(LlmError::ModelError(m)) && m@
                            == not_found_message(
                            self.config_spec().model_name@,
                            dir.path@,
                            crate::registry::all_model_stems(dir.files@),
                        ),
                    }
                }
            },
    {
        if self.is_initialized {
            return Result::Ok(StartPlan::AlreadyRunning(String::from_str(
                "LLM service already initialized",
            )));
        }
        match find_model_file(&self.config, explicit_path_exists, dir, &self.config.model_name) {
            Result::Ok(path) => Result::Ok(StartPlan::Load(path)),
            Result::Err(e) => Result::Err(e),
        }
    }

    /// The second half of `start`: commits the transition.
    ///
    /// Only a successful load moves the service to `Running`; any failure
    /// is returned unchanged and leaves the state `Uninitialized`, with no
    /// partial resources retained.
    pub fn start_finish(&mut self, outcome: Result<(), LlmError>) -> (r: Result<String, LlmError>)
        requires
            !old(self).running(),
        ensures
            final(self).config_spec() == old(self).config_spec(),
            outcome is Ok ==> final(self).running(),
            outcome is Ok ==> (r matches Ok(m) && m@ == start_success_message(
                old(self).config_spec().model_name@,
                old(self).config_spec().ctx_size,
            )),
            outcome matches Err(e) ==> !final(self).running() && r == Result::<String,
                LlmError,
            >::Err(e),
    {
        match outcome {
            Result::Ok(()) => {
                self.is_initialized = true;
                let mut m = String::from_str("LLM service initialized successfully with model: ");
                m.append(self.config.model_name.as_str());
                m.append(" (context size: ");
                let ctx = u64_to_string(self.config.ctx_size as u64);
                m.append(ctx.as_str());
                m.append(")");
                Result::Ok(m)
            },
            Result::Err(e) => Result::Err(e),
        }
    }

    /// Stops a running service, releasing the runtime state; stopping an
    /// already stopped service fails with `NotRunning`.
    pub fn stop(&mut self) -> (r: Result<String, LlmError>)
        ensures
            final(self).config_spec() == old(self).config_spec(),
            old(self).running() ==> !final(self).running() && (r matches Ok(m) && m@
                == "LLM service stopped successfully"@),
            !old(self).running() ==> *final(self) == *old(self) && r == Result::<String,
                LlmError,
            >::Err(LlmError::NotRunning),
    {
        if self.is_initialized {
            self.is_initialized = false;
            Result::Ok(String::from_str("LLM service stopped successfully"))
        } else {
            Result::Err(LlmError::NotRunning)
        }
    }

    /// Builds the formatted prompt for a request; legal only while
    /// `Running`.
    pub fn chat_prompt_for(&self, request: &ChatRequest) -> (r: Result<String, LlmError>)
        ensures
            self.running() ==> (r matches Ok(p) && p@ == chat_prompt(request.messages@)),
            !self.running() ==> r == Result::<String, LlmError>::Err(LlmError::NotRunning),
    {
        if !self.is_initialized {
            return Result::Err(LlmError::NotRunning);
        }
        Result::Ok(build_prompt(&request.messages))
    }

    /// The generation cap for a request: its override when present, else
    /// the configured default.
    pub fn effective_max_tokens(&self, request: &ChatRequest) -> (m: u32)
        ensures
            m == match request.max_tokens {
                Option::Some(v) => v,
                Option::None => self.config_spec().max_tokens,
            },
    {
        match request.max_tokens {
            Option::Some(v) => v,
            Option::None => self.config.max_tokens,
        }
    }

    /// Validates a tokenized prompt against the context window and opens a
    /// generation session for it.
    ///
    /// The request fails fast here — before any decode — with `ConfigError`
    /// when the configured window is zero, and with `ContextError` when the
    /// prompt alone exceeds the window or the combined token budget cannot
    /// be accounted in 32 bits.
    pub fn begin_generation(&self, prompt_tokens: u32, max_tokens: u32) -> (r: Result<
        GenSession,
        LlmError,
    >)
        ensures
            !self.running() ==> r == Result::<GenSession, LlmError>::Err(LlmError::NotRunning),
            (self.running() && self.config_spec().ctx_size == 0) ==> (r matches Err(
                LlmError::ConfigError(m),
            ) && m@ == "Context window size must be positive"@),
            (self.running() && self.config_spec().ctx_size > 0 && prompt_tokens > self.config_spec().ctx_size)
                ==> (r matches Err(LlmError::ContextError(m)) && m@ == window_overflow_message(
                prompt_tokens,
                self.config_spec().ctx_size,
            )),
            (self.running() && self.config_spec().ctx_size > 0 && prompt_tokens <= self.config_spec().ctx_size
                && prompt_tokens + max_tokens + 1 > u32::MAX) ==> (r matches Err(
                LlmError::ContextError(m),
            ) && m@ == "Requested token budget exceeds the supported range"@),
            (self.running() && self.config_spec().ctx_size > 0 && prompt_tokens <= self.config_spec().ctx_size
                && prompt_tokens + max_tokens + 1 <= u32::MAX) ==> (r matches Ok(s) && {
                &&& s.wf()
                &&& s.progress() == (crate::generation::GenProgress {
                    prompt_tokens,
                    max_tokens,
                    position: prompt_tokens as u64,
                    hit_end_marker: false,
                })
                &&& s.content_chars() == Seq::<char>::empty()
                &&& s.pending_bytes() == Seq::<u8>::empty()
            }),
    {
        if !self.is_initialized {
            return Result::Err(LlmError::NotRunning);
        }
        if self.config.ctx_size == 0 {
            return Result::Err(LlmError::ConfigError(String::from_str(
                "Context window size must be positive",
            )));
        }
        if prompt_tokens > self.config.ctx_size {
            let mut m = String::from_str("Prompt of ");
            let p = u64_to_string(prompt_tokens as u64);
            m.append(p.as_str());
            m.append(" tokens exceeds the context window of ");
            let c = u64_to_string(self.config.ctx_size as u64);
            m.append(c.as_str());
            m.append(" tokens");
            return Result::Err(LlmError::ContextError(m));
        }
        if prompt_tokens as u64 + max_tokens as u64 + 1 > u32::MAX as u64 {
            return Result::Err(LlmError::ContextError(String::from_str(
                "Requested token budget exceeds the supported range",
            )));
        }
        Result::Ok(GenSession::new(prompt_tokens, max_tokens))
    }

    /// Enumerates the available models, as the registry computes them from
    /// the directory snapshot.  Legal in every lifecycle state.
    pub fn list_models(&self, dir: &ModelDirView) -> (r: Result<
        crate::chat::ModelsResponse,
        LlmError,
    >)
        ensures
            !dir.exists ==> (r matches Err(LlmError::ConfigError(m)) && m@
                == crate::registry::missing_dir_advice(dir.path@)),
            dir.exists ==> {
                &&& r is Ok
                &&& r->Ok_0.object@ == "list"@
                &&& r->Ok_0.data@.len() == crate::registry::all_model_stems(dir.files@).len()
                &&& forall|k: int|
                    0 <= k < r->Ok_0.data@.len() ==> (#[trigger] r->Ok_0.data@[k]).id@
                        == crate::registry::all_model_stems(dir.files@)[k]
            },
    {
        crate::registry::list_models(dir)
    }

    /// Reports whether model files are available.  Legal in every
    /// lifecycle state.
    pub fn check_llm_health(&self, dir: &ModelDirView) -> (r: Result<String, LlmError>)
        ensures
            !dir.exists ==> (r matches Err(LlmError::ConfigError(m)) && m@
                == crate::registry::missing_dir_advice(dir.path@)),
            (dir.exists && crate::registry::all_model_stems(dir.files@).len() == 0) ==> (
            r matches Err(LlmError::ModelError(m)) && m@ == crate::registry::no_models_message(
                dir.path@,
            )),
            (dir.exists && crate::registry::all_model_stems(dir.files@).len() > 0) ==> (
            r matches Ok(m) && m@ == crate::registry::found_models_message(
                crate::registry::all_model_stems(dir.files@).len(),
                dir.path@,
                crate::registry::all_model_stems(dir.files@),
            )),
    {
        crate::registry::check_llm_health(dir)
    }

    /// Packages the generated text, stop reason and usage accounting into
    /// the response shape: a single choice at index 0, authored by the
    /// assistant role, with the creation time stamped from the wall clock.
    pub fn assemble_response(&self, content: String, finish_reason: String, usage: ChatUsage) -> (
    resp: ChatResponse)
        ensures
            resp.id@ == "chat-completion"@,
            resp.object@ == "chat.completion"@,
            resp.model@ == self.config_spec().model_name@,
            resp.choices@.len() == 1,
            resp.choices@[0].index == 0,
            resp.choices@[0].message.role@ == "assistant"@,
            resp.choices@[0].message.content@ == content@,
            resp.choices@[0].finish_reason matches Some(fr) && fr@ == finish_reason@,
            resp.usage matches Some(u) && u == usage,
    {
        let created = crate::registry::now_unix_seconds();
        let choice = ChatChoice {
            index: 0,
            message: ChatMessage {
                role: String::from_str("assistant"),
                content,
            },
            finish_reason: Option::Some(finish_reason),
        };
        let mut choices: Vec<ChatChoice> = Vec::new();
        choices.push(choice);
        ChatResponse {
            id: String::from_str("chat-completion"),
            object: String::from_str("chat.completion"),
            created,
            model: self.config.model_name.clone(),
            choices,
            usage: Option::Some(usage),
        }
    }
}

} // verus!
