//! Verified core of a JPEG XL codec wrapper: the data types of the codec
//! interface, the conversion of decoded bytes into samples, the mapping of
//! codec statuses to errors, the signature check, and the decisions that the
//! decoding and encoding drivers take on each status the codec reports.

pub mod buffer;
pub mod color;
pub mod common;
pub mod decode;
pub mod encode;
pub mod errors;
pub mod image;
pub mod metadata;
mod sealed;
pub mod types;
pub mod utils;

pub use common::{Endianness, PixelType};
pub use decode::decoder_builder;
pub use encode::encoder_builder;
pub use errors::{DecodeError, EncodeError};
pub use types::JxlBool;
