//! Typed packet records and their two wire forms.
//!
//! A record is turned into a self-describing document tree (`DynamicValue`)
//! for either the text form or the binary form, and a document tree is turned
//! back into a record or into a classified error. The contracts on those
//! conversions are exact, and the round-trip laws are proved in each record's
//! module.

pub mod comprehensive;
pub mod data_chunk;
mod error;
mod field;
mod hex;
pub mod message;
pub mod ping;
pub mod pong;
mod record;
pub mod rejection;
pub mod secure_message;
mod time;
pub mod user_profile;
mod value;

pub use comprehensive::ComprehensivePacket;
pub use data_chunk::DataChunkPacket;
pub use error::CodecError;
pub use field::{Float64, WireFormat};
pub use hex::{bytes_of_hex, decode_hex, encode_hex, hex_of};
pub use message::MessagePacket;
pub use ping::PingPacket;
pub use pong::PongPacket;
pub use record::type_id_field;
pub use secure_message::SecureMessagePacket;
pub use time::{clock_in_range, instant_in_range, Timestamp, WallClockTime};
pub use user_profile::UserProfilePacket;
pub use value::{has_key, lookup, same_value, DynamicValue};
