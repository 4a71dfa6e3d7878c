//! Register-level driver for the BP5758d five-channel constant-current LED
//! controller, spoken to over a two-wire serial bus.
//!
//! The driver validates channel, current-limit and grayscale values, encodes
//! them into the chip's address/data byte sequences, and sequences every
//! operation against the chip's sleep/wake protocol. The bus transport is a
//! trait collaborator; two in-memory transports are provided for testing.

pub mod bus;
pub mod driver;
pub mod error;
pub mod protocol;

pub use bus::Bus;
pub use bus::BusFault;
pub use bus::FailingBus;
pub use bus::RecordingBus;
pub use driver::Bp5758d;
pub use driver::DriverView;
pub use error::Error;
pub use protocol::Bp5758dChannel;
pub use protocol::validate_transform_current;
