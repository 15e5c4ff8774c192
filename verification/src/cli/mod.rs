//! The run: the privilege context, the installation steps, and their
//! sequencing.

pub mod executor;
pub mod orchestrator;
pub mod privilege;
