//! The texts of every message the library reports, grouped by subject.

pub mod binary;
pub mod config;
pub mod disk;
pub mod logs;
pub mod process;
pub mod tunnel;
