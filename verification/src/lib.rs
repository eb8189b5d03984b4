//! Planning, execution and reversal of the steps that install Nix on a host.
pub mod action;
pub mod command;
pub mod error;
pub mod facts;
pub mod host;
pub mod nix_config;
pub mod plan;
pub mod planner;
pub mod property_list;
pub mod receipt;
pub mod settings;
pub mod state;
pub mod text;

pub use action::{Action, StatefulAction};
pub use error::{ActionError, PlanningError};
pub use plan::InstallPlan;
pub use planner::BuiltinPlanner;
pub use settings::CommonSettings;
pub use state::ActionState;
