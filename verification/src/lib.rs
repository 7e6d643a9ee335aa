//! Launch-argument handling of the desktop client: which command line
//! flags are consumed, how deep links are rewritten, which command a
//! command line selects, and how a new-connection request is encoded.

pub mod text;
pub mod launch;
pub mod links;
pub mod command;
pub mod invoke;
pub mod import;
pub mod lang;
pub mod start;
