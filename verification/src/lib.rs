pub mod audio;
pub mod backend;
pub mod config;
pub mod download;
pub mod effect;
pub mod json;
pub mod laws;
pub mod orchestrator;
pub mod paste;
pub mod runtime;
pub mod settings;
pub mod text;
pub mod window;
