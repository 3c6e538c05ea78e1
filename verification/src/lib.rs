//! Murmur: hold a key, speak, release, and the words are typed.
//!
//! This crate holds the decisions of the dictation engine, its panel button
//! and its settings window. Devices, processes, the network and the session
//! bus belong to the programs around it, which hand plain values in and
//! perform the actions that come out.

pub mod audio;
pub mod bus;
pub mod config;
pub mod controller;
pub mod download;
pub mod engine;
pub mod fillers;
pub mod keyboards;
pub mod labels;
pub mod models;
pub mod panel;
pub mod panel_laws;
pub mod paths;
pub mod replacements;
pub mod replacer;
pub mod session;
pub mod session_laws;
pub mod settings;
pub mod settings_laws;
pub mod state;
pub mod status;
pub mod text;
pub mod typing;
