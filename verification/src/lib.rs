//! Launch resolution for the Ferrule language server inside the Zed editor.
//!
//! The editor names the language server it wants to start; [`resolver::resolve`]
//! answers with the process to launch, or reports the name as unknown.

pub mod failure;
pub mod launch;
pub mod resolver;
pub mod text;
