//! Verified core of the agent panel's tab management, the generation timer,
//! the thread controls, and the branch-diff toolbar and its base-branch
//! picker.
//!
//! UI operations are modelled as functions from the current state (and what
//! the UI reports) to the next state and the effects the UI must carry out.

pub mod branch;
pub mod branch_picker;
pub mod decimal;
pub mod tab;
pub mod tab_label;
pub mod tab_laws;
pub mod tabs;
pub mod timer;
pub mod turn_stats;
