//! Formula scanner core: prompt assembly, configuration rules, LLM reply
//! handling, verification scoring and history bookkeeping.

pub mod text;
pub mod prompts;
pub mod data_models;
pub mod llm;
pub mod history;
pub mod encoding;
pub mod recognition;
pub mod settings;
pub mod capture;
pub mod laws;
pub mod pipeline;
