//! Decision logic of a remote-desktop helper that hands each desktop session its own
//! WireGuard interface inside a private network namespace: the programs it runs and
//! in which order, the request protocol between a session and the privileged
//! service, the service's configuration, and the reports of failures.

pub mod command;
pub mod config;
pub mod decimal;
pub mod errno;
pub mod plans;
pub mod request;
pub mod sequence;
pub mod status;

pub use errno::get_err;
pub use config::assign_some;
