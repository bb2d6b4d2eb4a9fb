//! A tool-calling agent core: the conversation model, the tool registry, the
//! wire shapes of chat completions and the loop that ties them together.

pub mod text;

pub mod json;

pub mod provider;

pub mod tools;

pub mod agent_loop;

pub mod run_model;

pub mod image;

pub mod error;

pub mod commands;
