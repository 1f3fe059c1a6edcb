//! Small verified utility library centred on a fixed-capacity, generically
//! backed UTF-8 text buffer, together with a minimal text-writer trait and
//! an early-return helper.
//!
//! The main type, [`StringWrapper`], wraps a caller-supplied byte storage of
//! fixed size — any implementor of [`Buffer`] — and maintains the invariant
//! that the used prefix of that storage is always a well-formed UTF-8
//! encoding of a character sequence. [`TextWriter`] is the smallest interface
//! of a Unicode sink, implemented for `String`, for `StringWrapper` and for
//! the code-point writer [`Ucs4`]. [`Triable`] generalises early return over
//! `Result`, `Option` and `bool`.

mod buffer;
mod encoding;
mod text_writer;
mod triable;
mod wrapper;

pub use buffer::Buffer;
pub use encoding::{lemma_text_round_trip, starts_well_formed_utf8_sequence, utf8_byte_length};
pub use text_writer::{write_to, Error, TextWriter, Ucs4};
pub use triable::{Triable, TriableResult};
pub use wrapper::StringWrapper;
