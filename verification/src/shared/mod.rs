//! Types and rules shared by every contract of the workspace.
pub mod address;
pub mod auth;
pub mod errors;
pub mod math;
pub mod storage;
pub mod symbol;
pub mod utils;
