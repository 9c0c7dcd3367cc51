//! Core logic of the Pianke desktop shell: feature modes and the pip packages
//! they need, the Python environment set-up plan, environment assessment, the
//! update decision procedure and the local server's start-up and health rules.

pub mod text;
pub mod modes;
pub mod setup;
pub mod update;
pub mod runtime;
pub mod env;
pub mod server;
pub mod process;
pub mod launch;
