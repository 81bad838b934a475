//! Startup logic of a small web service: the layered resolution of its
//! settings and the bounded, structured report of a fatal failure.

pub mod chain;
pub mod environment;
pub mod error;
pub mod failure;
pub mod layer;
pub mod port;
pub mod report;
pub mod serve;
pub mod settings;
pub mod source;
pub mod text;
