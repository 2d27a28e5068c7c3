//! Controller logic for one locally supervised virtual machine: backend
//! negotiation, launch-argument construction, lock and state bookkeeping,
//! and the small decisions that the command-line front end drives.

pub mod accel;
pub mod argv;
pub mod cli;
pub mod config;
pub mod doctor;
pub mod hashing;
pub mod launch;
pub mod lock;
pub mod negotiate;
pub mod net;
pub mod output;
pub mod paths;
pub mod report;
pub mod session;
pub mod ssh_config;
pub mod state;
pub mod terminal;
pub mod text;
pub mod validate;
pub mod vars;
