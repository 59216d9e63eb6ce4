//! Transcoding between a save-file text format and the plain bytes it stores.
//!
//! A save file holds standard base64 text; the bytes underneath are obfuscated
//! with a short repeating-key XOR cipher. `encode_save` and `decode_save`
//! compose the two primitives in the right order for each direction.

pub mod cipher;
pub mod codec;
pub mod transcoder;

pub use cipher::encode_or_decode;
pub use codec::DecodeError;
pub use transcoder::decode_save;
pub use transcoder::encode_save;
pub use transcoder::round_trip;
