//! State machine, parsers and caching for a terminal front-end to snapshot tooling.
//!
//! The library decides; a runner outside it performs. Requests for outside work (running
//! the snapshot tool, storing preferences) come out of the state machine as effects, and
//! their results go back in with the ticket of the request they answer.
pub mod app;
pub mod cache;
pub mod config_form;
pub mod snapper;
pub mod state;
pub mod system;
pub mod text;
pub mod ui;
