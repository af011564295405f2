//! Remote control for a single media player process over its local control
//! socket, exposed as a small HTTP API: start playback of a URL, pause, and
//! resume.  This crate holds the decision logic of that service: the response
//! protocol types and their wire text, a model of the player that the control
//! verbs act on, the per-route handler decisions, and the connect-or-spawn
//! acquisition policy.  The process and socket plumbing around it lives with
//! the server binary.
pub mod control;
pub mod handlers;
pub mod player;
pub mod protocol;
