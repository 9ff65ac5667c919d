use vstd::prelude::*;

pub mod text;
pub mod instant;
pub mod wordset;
pub mod hashing;
pub mod diff_builder;
pub mod dedupe_gate;
pub mod episode_builder;
pub mod clustering;
pub mod attendee_intel;
pub mod calendar_client;
pub mod sizes;
pub mod ai_client;
pub mod chunk_manager;
pub mod commands;
pub mod capture_engine;
pub mod continue_prompt;
pub mod interaction_loop;
pub mod catch_up_agent;
pub mod data_editor;
pub mod accessibility_extractor;
pub mod accessibility_capture;
pub mod ambient_capture;
pub mod capture_metrics;
pub mod dork_mode;
pub mod audit_log;
pub mod env_config;
pub mod frame_extractor;
pub mod admin;
pub mod diagnostics;
pub mod knowledge_sync;
pub mod timeline;
pub mod queries;
pub mod recording_flow;
pub mod export_notes;
pub mod meeting_timeline;
pub mod session_settings;
pub mod frame_lookup;
pub mod startup;

verus! {

/// How far the application's start-up got.
#[derive(Debug, Clone)]
pub enum InitStatus {
    Initializing,
    Ready,
    /// Start-up failed, with the reason.
    Failed(String),
}

} // verus!
