//! Lifecycle management for Clash-family proxy cores, and the IPC surface of
//! the service that runs them.
#![allow(unused_imports)]

pub mod capability;
pub mod clash;
pub mod clock;
pub mod config;
pub mod error;
pub mod feature;
pub mod health;
pub mod host;
pub mod instance;
pub mod ipc;
pub mod kind;
pub mod manager;
pub mod path;
pub mod platform;
pub mod runtime_store;
pub mod service;
pub mod share;
pub mod spec;
pub mod state;
pub mod text;
pub mod yaml;
