//! Package-name rules, byte formatting, history records and the decision
//! logic behind a safety layer for the pacman package manager.

use vstd::prelude::*;

pub mod text;
pub mod units;
pub mod report;
pub mod names;
pub mod paths;
pub mod history;
pub mod pacman;
pub mod install;
pub mod remove;
pub mod update;
pub mod lookup;
pub mod lookup_run;
pub mod doctor;
pub mod session;
pub mod flow;
pub mod install_run;
pub mod remove_run;
pub mod update_run;

pub use names::{valid_pkg, ListType};
pub use paths::{history_path, require_cmd};
pub use units::format_bytes;

verus! {

} // verus!
