//! Ctrl+C handling for [`serenity`](https://crates.io/crates/serenity) bots.
//!
//! An interrupt reaches the process on a thread of its own, outside the task
//! runtime. This crate bridges the two: on every interrupt it resolves a
//! non-owning reference to the bot's shard manager, hands the outcome to a
//! completion routine and blocks the signal thread until that routine's work
//! has run to its end.
pub mod bridge;
pub mod disconnector;
pub mod error;
pub mod ext;
mod private;
pub mod registration;
pub mod runtime;
pub mod target;
pub mod watch;

pub use bridge::deliver;
pub use bridge::Bridge;
pub use bridge::DefaultBridge;
pub use bridge::InterruptHandler;
pub use disconnector::Disconnector;
pub use error::InstallFailure;
pub use error::SignalError;
pub use ext::Ext;
pub use registration::ctrlc;
pub use registration::ctrlc_with;
pub use registration::install_handler;
pub use registration::register;
pub use registration::register_on;
pub use registration::register_with;
pub use registration::register_with_on;
pub use registration::settle;
pub use registration::Registrar;
pub use runtime::Outside;
pub use watch::Watch;
