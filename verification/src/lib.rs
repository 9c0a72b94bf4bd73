//! The rules of Xyra, a local-first program that clips games: what is recorded and how,
//! which part of the replay buffer becomes a clip, how clips are listed, played, cut and
//! published, and what the user is told.

pub mod audio;
pub mod capture;
pub mod capture_args;
pub mod config;
pub mod credentials;
pub mod display;
pub mod ffmpeg;
pub mod hotkeys;
pub mod laws;
pub mod library;
pub mod model;
pub mod oauth;
pub mod obs_capture;
pub mod order;
pub mod paths;
pub mod player;
pub mod publish;
pub mod recording_laws;
pub mod services;
pub mod session;
pub mod startup;
pub mod system_tray;
pub mod text;
pub mod uploads;
pub mod views;
pub mod windows_audio;
