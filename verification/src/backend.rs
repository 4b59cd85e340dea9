//! The supervisor of tunnel processes and the data it works on.

pub mod backend_impl;
pub mod config;
pub mod mock_backend;
pub mod process;
pub mod types;
