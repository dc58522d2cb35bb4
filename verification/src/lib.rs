//! Core logic of the tauri-leptos application template: the application
//! directory layout, the configuration model and its validation, the
//! first-run loading protocol, and the cross-origin policy of the api.
use vstd::prelude::*;

pub mod bootstrap;
pub mod config;
pub mod paths;
pub mod server;
pub mod text;

verus! {

/// Bundle identifier of the application.
pub const APP_IDENTIFIER: &'static str = "com.nick.tauri-leptos";

/// Env var that pins every app directory under a single folder.
/// An empty value must act as unset.
pub const APP_DIR_ENV: &'static str = "TAURI_LEPTOS_APP_DIR";

} // verus!
