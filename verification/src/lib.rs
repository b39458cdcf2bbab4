//! Development-mode build orchestration for a two-part web application:
//! classification of filesystem changes, rebuild triggering with error
//! capture, and a last-writer-wins broadcast of reload decisions to any
//! number of live client sessions.

pub mod assets;
pub mod backend;
pub mod cell;
pub mod classify;
pub mod clean;
pub mod message;
pub mod session;
pub mod tls;
pub mod trigger;
pub mod watch;
pub mod wire;

pub use clean::NormalizedClean;
