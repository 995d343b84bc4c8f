//! A safe boundary adapter over an imaging codec: it validates untyped
//! (dimensions, byte buffer) descriptors, invokes exactly one library
//! operation — encode, decode, or resize — and returns the result as a
//! freshly allocated buffer whose ownership passes to the caller.

pub mod descriptors;
pub mod formats;
pub mod imaging;
pub mod ops;

pub use descriptors::CodecError;
pub use descriptors::ImageBoxData;
pub use descriptors::ImageData;
pub use formats::LibImageFormat;
pub use ops::rust_decode_image;
pub use ops::rust_encode_image;
pub use ops::rust_resize_image;
