//! Workspace state synchronizer for a status-bar widget.
//!
//! The library keeps a small piece of UI state — how many workspaces the
//! window manager has, and which one is focused — consistent with an
//! external, asynchronously-updating directory of workspaces, while also
//! accepting locally-initiated changes (button presses, scroll gestures)
//! that race against that external source.

pub mod channel;
pub mod clock;
pub mod laws;
pub mod workspace;
