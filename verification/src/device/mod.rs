//! The device side: report frames, commands and device identity.

pub mod bus;
pub mod command;
pub mod endian;
pub mod error;
pub mod extensions;
pub mod parameter;
pub mod report;
pub mod status;
pub mod text;
pub mod transport;
pub mod uevent;

pub use self::bus::BusType;
pub use self::error::Error;
pub use self::report::MidiFaderCommandArgs;
