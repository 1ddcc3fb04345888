//! The tool-invocation layer of an agent runtime: it turns a model's reply
//! into narrative text and tool calls, and turns tool results back into the
//! messages that the active protocol expects. Beside it stand the catalog of
//! integrations, the speech tool's decisions, the command line's messages,
//! and the static file server's decisions.
pub mod dispatcher;
pub mod gitee_tts;
pub mod i18n;
pub mod json;
pub mod model;
pub mod registry;
pub mod static_files;
pub mod tags;
pub mod text;
