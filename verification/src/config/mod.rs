//! The configuration of a device: typed parameters, grouped by channel.

pub mod array;
pub mod button;
pub mod commit;
pub mod configure;
pub mod device_config;
pub mod error;
pub mod fader;
pub mod group;
pub mod modes;
pub mod parameter;
pub mod plan;
pub mod ranged;
pub mod read;
pub mod value;

pub use self::configure::configure;
pub use self::configure::Request;
pub use self::configure::Response;
pub use self::device_config::DeviceConfig;
pub use self::error::Error;
pub use self::group::GroupConfig;
pub use self::modes::ButtonMode;
pub use self::modes::ButtonStyle;
pub use self::modes::FaderMode;
pub use self::ranged::MidiChannel;
pub use self::ranged::MidiPitch;
pub use self::ranged::MidiValue;
