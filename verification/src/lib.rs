//! Core of a move-or-convert file tool: given a source path and a destination
//! path it decides whether the file must be renamed, copied or converted,
//! builds an inspectable plan for that decision, and drives the execution of
//! the plan as a step machine whose filesystem and subprocess actions are
//! carried out by the surrounding program.

pub mod batch;
pub mod command;
pub mod config;
pub mod detect;
pub mod execute;
pub mod mode;
pub mod numbers;
pub mod pathing;
pub mod pdf;
pub mod plan;
pub mod progress;
pub mod render;
pub mod strings;
