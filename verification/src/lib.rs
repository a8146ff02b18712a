//! Core round pipeline of the Pulsar assistant: hook cycle gates, model-call input
//! surgery, role resolution, candidate-pool assembly, provider registry rules and
//! session serialisation, each with a verified contract.

pub mod cycle;
pub mod error;
pub mod hook_defs;
pub mod judgement;
pub mod model_call_input;
pub mod models;
pub mod round_types;
pub mod text;
pub mod log_phase;
pub mod session_coordinator;
pub mod round_resolver;
pub mod round_contract;
pub mod round_executor;
pub mod providers;
pub mod openai_compat;
pub mod neuron_config;
pub mod hook_store;
pub mod poller_step;
pub mod selection;
pub mod evolution;
pub mod creation;
pub mod neuron_graph;
pub mod neuron_store;
pub mod drafts;
pub mod neighborhood;
pub mod neuron_tools;
