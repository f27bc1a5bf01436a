//! The log and metrics server: configuration, validation, access rules.
pub mod state;
pub mod models;
pub mod db;
pub mod config;
pub mod auth;
pub mod settings;
pub mod web;
pub mod cli;
pub mod migrate;
