//! Core logic of a live-development build tool: the build event protocol
//! and its wire form, the document pipeline's collect-and-merge step, the
//! watcher's feedback-loop avoidance, and the development server's routing,
//! static-serving and fallback decisions.

pub mod bus;
pub mod bytes;
pub mod config;
pub mod document;
pub mod events;
pub mod ignore;
pub mod orchestrator;
pub mod pipeline;
pub mod serve;
