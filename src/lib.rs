//! A small client for a generative-model HTTP API: the conversation data
//! model, a registry of named functions that the model may ask to have
//! called, the endpoint addresses, and a builder that checks configuration.

mod client;
mod content;
mod outside;
mod registry;
mod text;

pub use client::{
    endpoint_address, lemma_complete_missing_setting, missing_fields_message, opt_chars,
    GeminiClient, GeminiClientBuilder, Operation,
};
pub use content::{Content, FunctionDeclaration, FunctionParameters, ParameterProperty, Part};
pub use registry::{
    dispatched, handler_result, lemma_dispatch_text, lemma_dispatch_unknown,
    lemma_new_registry_knows_nothing, lemma_register_distinct, lemma_register_then_dispatch,
    lemma_register_twice, not_a_function_call_error, not_a_function_call_message, register_all, unknown_function_message,
    FunctionRegistry,
};
