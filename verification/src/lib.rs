//! Account failover core of an interactive coding-agent command line.
//!
//! The crate decides which configured provider account should serve the next
//! request when the active one runs into a rate or usage limit, and it holds
//! the decisions of the background job that refreshes per-account usage
//! telemetry. Every decision is a function of plain values; reading stores,
//! talking to the network and drawing the terminal are left to the caller.
//!
//! Account switching:
//! - [`usage`] interprets a stored rate-limit snapshot,
//! - [`switch_state`] records which accounts were tried and limited,
//! - [`reactive`] picks the account to try right after a limit was hit,
//! - [`proactive`] and [`preferred`] propose a move before one is hit,
//! - [`account_switching`] ties recording and picking together,
//! - [`rate_limit_refresh`] steers a refresh of the usage telemetry.
//!
//! Around it: theme files, the session catalog, the arguments of the plan
//! tool, skills, and the state of a few views of the interface.

pub mod account;
pub mod account_id;
pub mod account_switching;
pub mod candidate;
pub mod glitch_animation;
pub mod onboarding;
pub mod plan_tool;
pub mod preferred;
pub mod proactive;
pub mod rate_limit_refresh;
pub mod reactive;
pub mod session_catalog;
pub mod settings_view;
pub mod skills;
pub mod snapshot_index;
pub mod switch_state;
pub mod text;
pub mod theme_files;
pub mod timestamp;
pub mod ui_prefs;
pub mod usage;
