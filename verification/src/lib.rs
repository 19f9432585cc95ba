//! The engine of an HTTP load generator: the request template and its
//! configuration, the per-connection send cycle as a state machine, the
//! two-tier statistics of a run, and the routing of a small target server
//! to try it against.

pub mod collector;
pub mod config;
pub mod connector;
pub mod counting_connection;
pub mod driver;
pub mod error;
pub mod makecert;
pub mod method;
pub mod report;
pub mod sender;
pub mod service;
pub mod target;
pub mod text;
pub mod urlparts;

pub use collector::{Collector, LocalCollector, Results};
pub use config::{Builder, Config};
pub use error::Error;
pub use sender::{new_sender, Sender};
