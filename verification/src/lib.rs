//! Core of a push-to-talk voice input tool.

pub mod asr;
pub mod config;
pub mod desktop;
pub mod hotkey;
pub mod inserter;
pub mod keys;
pub mod probe;
pub mod text;
pub mod time;
pub mod voice;
