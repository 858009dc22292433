//! Typed, fallible access to the Fast Debugging Protocol (FDP) of a
//! virtual machine, with the decisions of a session proved correct.

mod error;
pub mod register;
pub mod session;
pub mod setup;
pub mod symbol;

pub use error::{FDPError, Operation};
pub use symbol::{Symbol, LIBRARY_BASENAME};
pub use setup::{Action, Phase, Setup};
pub use session::{Session, MAX_READ_LEN};
pub use register::RegisterType;
