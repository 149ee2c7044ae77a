pub mod decode;
pub mod handle;
pub mod utf8;

pub use decode::decode_from_path;
pub use decode::from_raw_rgba;
pub use decode::DecodeError;
pub use handle::cimage_image;
pub use handle::cimage_rgba8;
pub use handle::release;
