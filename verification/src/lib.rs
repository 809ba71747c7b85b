//! Decisions of a launcher for a database proxy: where its settings live, what
//! it asks the user, which arguments the proxy gets and how the proxy's output
//! is relayed. Terminal, file system and process work are left to the caller.

pub mod paint;
pub mod settings;
pub mod prompt;
pub mod relay;
pub mod notices;
pub mod flow;
pub mod laws;
