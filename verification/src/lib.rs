//! Transport binding that carries an MCTP packet stream between two endpoints
//! over a byte-stream channel standing in for a shared I2C bus.
//!
//! The verified core is the framing codec (fixed chardev header with magic,
//! version, length and addresses), the outbound fragment sender and the
//! inbound frame receiver's decision logic. Socket I/O and the MCTP protocol
//! engine sit outside the library and drive it with plain values.

pub mod fragment;
pub mod header;
pub mod i2c;
pub mod receiver;
pub mod sender;

pub use header::ParseError;
pub use header::QemuI2cChardevHeader;
pub use receiver::QemuI2cTransportReceiver;
pub use sender::QemuI2cTransportSender;
