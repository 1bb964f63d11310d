//! Keeps an LG television in step with the computer it serves as a screen for.

pub mod commands;
pub mod config;
pub mod courses;
pub mod delay;
pub mod duties;
pub mod effects;
pub mod endings;
pub mod failure;
pub mod history;
pub mod marker;
pub mod net;
pub mod number;
pub mod paths;
pub mod process;
pub mod run;
pub mod talk;
pub mod text;
pub mod wol;
