pub mod automation;
pub mod config;
pub mod desktop;
pub mod history;
pub mod local_model;
pub mod models;
pub mod overlay;
pub mod native_stt;
pub mod number;
pub mod pipeline;
pub mod preview;
pub mod recording_queue;
pub mod remote;
pub mod settings;
pub mod text;
pub mod text_cleaner;
pub mod transcription_service;
pub mod tray;
