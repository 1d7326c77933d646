//! Verified decision logic of the AntennaBench desktop shell: build identity,
//! antenna-controller profiles and command expansion, automation policy,
//! managed-session catalogs, report presentation state, and the typed error
//! payloads that the desktop boundary returns.

pub mod identity;
pub mod text;
pub mod instants;
pub mod errors;
pub mod control_model;
pub mod command;
pub mod profiles;
pub mod process;
pub mod mapping;
pub mod policy;
pub mod transition;
pub mod build_context;
pub mod actions;
pub mod managed;
pub mod paths;
pub mod bundles;
pub mod desktop;
pub mod refresh;
pub mod report_window;
pub mod timing;
pub mod setup;
pub mod open_errors;
pub mod controller_view;
pub mod diagnostics;
pub mod operation_diagnostics;
pub mod automation;
pub mod controller_commands;
pub mod controller_run;
pub mod conductor_actions;
pub mod conductor_state;
pub mod conductor_view;
pub mod report_snapshot;
pub mod conductor_session;
pub mod laws;
pub mod rbn;
