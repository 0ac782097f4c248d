//! Prompt-chain orchestration over interchangeable text-generation providers.
//!
//! The library holds the decisions: a provider registry, a template renderer for
//! `{{step}}` placeholders, a chain runner that threads step outputs into later
//! prompts, a validating retry wrapper and a multi-provider evaluator. Each of the
//! runners is a state machine: the caller performs the provider call it asks for
//! and hands the reply back.

pub mod error;

pub mod results;
pub mod template;
pub mod registry;
pub mod chat;
pub mod chain;
pub mod chain_trace;
pub mod validated_llm;
pub mod evaluator;
pub mod builder;
