//! Monolith: the verified core of a local-first game library client and its backend.

pub mod admin;
pub mod auth;
pub mod backend;
pub mod backend_client;
pub mod backend_config;
pub mod client_auth;
pub mod client_inventory;
pub mod client_rom_download;
pub mod cover;
pub mod db;
pub mod emulator_launcher;
pub mod inventory;
pub mod models;
pub mod navigation;
pub mod oidc;
pub mod paths;
pub mod session_store;
pub mod sort;
pub mod sync;
pub mod text;
pub mod ui;
