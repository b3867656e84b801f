//! Context-aware command palette engine for a cloud resource dashboard.
//!
//! A `CommandContext` snapshots navigation, selection and environment state.
//! The builders turn it into a catalog of commands (navigation, profile and
//! region switches, per-service actions from one data table, general
//! commands); the resolver keeps those whose requirements hold; the palette
//! narrows them by a case-insensitive query and keeps a clamped cursor; and
//! `AppState` dispatches executed commands and keeps the palette synchronised
//! with the state after every change.

pub mod arn;
pub mod builders;
pub mod commands;
pub mod config;
pub mod context;
pub mod error;
pub mod favorites;
pub mod page;
pub mod palette;
pub mod profiles;
pub mod provider;
pub mod quick_nav;
pub mod recent;
pub mod regions;
pub mod registry;
pub mod service;
pub mod service_catalog;
pub mod state;
pub mod text;
