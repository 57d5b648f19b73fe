//! Big-endian decoding primitives over borrowed byte buffers: a bound-checked
//! cursor, a trusted cursor for windows whose size is already known, lazily
//! decoded arrays and offset values.

pub mod decode;
pub mod error;
pub mod lazy_array;
pub mod offset;
pub mod stream;

pub use decode::{FSize, FromData, SafeStream, TryFromData};
pub use error::Error;
pub use lazy_array::{LazyArray, LazyArrayIter};
pub use offset::Offset32;
pub use stream::Stream;
