//! Supervisor for a local backend service.
//!
//! The crate holds the decisions of a desktop shell that starts a backend
//! server on the loopback interface: which port it listens on, which secret
//! it is given, how its process is launched, when it counts as ready, and
//! which address is handed to clients. It looks up the port, the secret,
//! the interpreter and the home directory itself; creating the process,
//! sleeping and sending HTTP requests are left to the caller, who reports
//! back what came of them.

pub mod address;
pub mod launch;
pub mod paths;
pub mod port;
pub mod probe;
pub mod registry;
pub mod secret;
pub mod supervisor;
pub mod text;
