//! Verified core of a hotkey-triggered translation pipeline.
//!
//! The library covers the trigger-capture-inject pipeline of a desktop
//! translation helper: recognizing a repeated-key gesture from a raw key
//! stream, the clipboard-mediated text exchange protocol with backup and
//! restore, and the orchestration of capture, a batch or streaming
//! translation call, and live text injection with rollback on failure.
//! Operating-system effects (clipboard access, key simulation, sleeping,
//! network) are either behind small trusted wrappers or are emitted as
//! actions that a thin driver performs, so every decision the pipeline
//! makes is stated in a contract and checked.

pub mod config;
pub mod database;
pub mod error;
pub mod hotkey;
pub mod injector;
pub mod key_listener;
pub mod llm;
pub mod orchestrator;
pub mod text_handler;
pub mod textops;
