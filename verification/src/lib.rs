//! Event-to-action dispatch for a terminal dashboard of job applications.
//!
//! The crate turns input events into typed actions, routes them to the
//! components that belong to the current mode, and moves focus cursors in a
//! deterministic way. Every function is verified against its contract; the
//! few that call the layout engine or a string function of std state what is
//! taken on trust of that call.

pub mod action;
pub mod app;
pub mod components;
pub mod config;
pub mod database;
pub mod event;
pub mod focus;
pub mod geometry;
pub mod keys;
pub mod text;
