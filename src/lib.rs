//! Command logic of a barcode decoding and encoding tool: the payload
//! resolver, the option checks and the hint builders that prepare the calls
//! into the barcode codec.
pub mod decode_hints;
pub mod encode_hints;
pub mod format;
pub mod payload;
pub mod request;
