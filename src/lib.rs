//! Decoding of console input records into a typed event model.
//!
//! A console delivers input as a tagged union: a discriminant naming one of
//! five event kinds, and a payload whose layout depends on that kind. This
//! library reads such a record, decodes its bit fields into value types with
//! named predicates, and returns one variant of [`InputRecord`], or a
//! [`DecodeError`] when the record cannot be interpreted.
pub mod coord;
pub mod flags;
pub mod raw;
pub mod records;

pub use coord::{Coord, Size};
pub use flags::{ButtonState, ControlKeyState, EventFlags};
pub use raw::RawInputRecord;
pub use records::{
    DecodeError, FocusEventRecord, InputRecord, KeyEventRecord, MenuEventRecord, MouseEvent,
    WindowBufferSizeRecord,
};
