//! Data types of the host.
pub mod error;
pub mod guest_output_types;
pub mod ncp_types;
pub mod types;
