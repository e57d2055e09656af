//! Core of a clipboard overlay widget: a poller that watches the system
//! clipboard and surfaces new text in a transient window, and an inactivity
//! monitor that conceals the window again after a quiet period.
//!
//! This crate holds the verified logic only: the shared state store, the
//! deduplication of repeated clipboard content, and the show/hide lifecycle
//! decisions. The actual clipboard reads, window-system calls and worker
//! threads live outside the crate and hand plain values in and out.

pub mod controller;
pub mod monitor;
pub mod poller;
pub mod state;
pub mod window;
