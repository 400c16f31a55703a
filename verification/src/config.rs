//! Engine configuration.
//!
//! A configuration is immutable for the lifetime of one service instance;
//! replacing it requires constructing a new instance.

use vstd::prelude::*;

verus! {

/// Configuration of one engine instance.
///
/// Sampling knobs are carried as integer per-mille values so that contracts
/// can speak about them exactly: a `temperature` of 0.8 is stored as
/// `temperature_permille == 800`.  The generation loop itself always uses
/// deterministic greedy sampling; the two sampling fields are an extension
/// point and are not wired into the sampler.
#[derive(Debug, Clone)]
pub struct LlmConfig {
    /// Logical identifier of the model to load.
    pub model_name: String,
    /// Explicit model file path; bypasses the directory search when the file
    /// exists.
    pub model_path: Option<String>,
    /// Sampling temperature, in thousandths.
    pub temperature_permille: u32,
    /// Nucleus-sampling threshold, in thousandths.
    pub top_p_permille: u32,
    /// Default cap on the number of generated tokens per request.
    pub max_tokens: u32,
    /// Context window size in tokens; must be positive for generation.
    pub ctx_size: u32,
    /// Optional CPU thread pin for the inference runtime.
    pub n_threads: Option<i32>,
    /// Number of model layers offloaded to an accelerator; 0 keeps the whole
    /// model on the general-purpose processor.
    pub n_gpu_layers: i32,
}

impl core::default::Default for LlmConfig {
    /// The stock configuration: a 4096-token window, a 512-token generation
    /// cap, greedy-compatible sampling defaults, and no accelerator offload.
    fn default() -> (c: Self)
        ensures
            c.model_name@ == "Llama-3.2-1B-Instruct-Q5_K_M"@,
            c.model_path is None,
            c.temperature_permille == 800,
            c.top_p_permille == 900,
            c.max_tokens == 512,
            c.ctx_size == 4096,
            c.n_threads is None,
            c.n_gpu_layers == 0,
    {
        LlmConfig {
            model_name: String::from_str("Llama-3.2-1B-Instruct-Q5_K_M"),
            model_path: None,
            temperature_permille: 800,
            top_p_permille: 900,
            max_tokens: 512,
            ctx_size: 4096,
            n_threads: None,
            n_gpu_layers: 0,
        }
    }
}

} // verus!
