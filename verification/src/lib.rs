//! A passive serial-port monitor, as a library of decisions.
//!
//! The program around this library owns the serial device, the clock and the
//! two output streams. Everything it has to decide is here: how the bytes that
//! arrive become text ([`decode`]), when a silent line ends the session
//! ([`idle`]), what one turn of the read loop does with what the device gave
//! ([`monitor`]), and what becomes of a device that could not be opened
//! ([`startup`], with the settings of [`config`]).
//!
//! What is proved of the whole stands in two modules of its own: decoding
//! does not depend on where the reads cut the stream ([`chunking`]), and a
//! session ends by itself only through silence after text ([`session`]).
//!
//! Times are milliseconds on a clock that the caller reads; the library never
//! asks for the time itself.

pub mod chunking;
pub mod config;
pub mod decode;
pub mod idle;
pub mod monitor;
pub mod session;
pub mod startup;
