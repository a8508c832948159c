//! Enversal: environments for autonomous agents, with the control plane's
//! decisions stated and proved.

pub mod ids;
pub mod text;
pub mod json;
pub mod prompt;
pub mod limits;
pub mod agent;
pub mod environment;
pub mod error;
pub mod paths;
pub mod sandbox;
pub mod registry;
pub mod tools;
pub mod manifest;
pub mod service;
pub mod engine;
pub mod cognitive;
pub mod timeline;
