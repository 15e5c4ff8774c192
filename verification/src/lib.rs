//! Provisioning of an Ubuntu development workstation: the commands to run,
//! the privilege context they run in, and the fail-fast sequencing of the
//! installation steps. The library decides; spawning processes and reading
//! the environment is left to the caller.

pub mod cli;
pub mod error;
pub mod utils;
