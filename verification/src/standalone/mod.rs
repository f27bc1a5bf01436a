//! The single-database server: one SQLite file for logs, accounts and
//! settings, and a login that is always required unless switched off.
pub mod config;
pub mod auth;
pub mod api;
pub mod web;
pub mod cli;
pub mod state;
