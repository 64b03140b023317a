//! Tag-address resolution and the Modbus protocol engine of the channel gateway.
//!
//! The crate turns the textual address of a tag into a validated register
//! location, and encodes and decodes Modbus frames, both the bare unit and the
//! TCP framing. Every function states what it returns over a mathematical
//! model of its data, and the statements are proved.
//!
//! - [`value`], [`tag`], [`table`]: values, tags and tables of tags
//! - [`address`], [`text`]: address texts and their resolution
//! - [`coils`], [`pdu`], [`tcp`]: the protocol on the wire
//! - [`client`]: what a client decides between sending and receiving
//! - [`driver`], [`device`], [`error`]: the driver, device kinds and errors
//! - [`buffer`]: the byte buffers of the `bytes` crate, taken on trust

pub mod address;
pub mod buffer;
pub mod client;
pub mod coils;
pub mod device;
pub mod driver;
pub mod error;
pub mod pdu;
pub mod table;
pub mod tag;
pub mod tcp;
pub mod text;
pub mod value;
