//! Lightweight sequence and text-span utilities: a half-open interval value
//! type with derived-span operations, sliding-window subsequence search and
//! occurrence removal over borrowed slices, lazy segmentation of a borrowed
//! sequence around predicate matches, and character-boundary computation for
//! UTF-8 text.

pub mod cursor;
pub mod slice;
pub mod span;
pub mod split;
pub mod text;
pub mod wrappers;

pub use crate::cursor::Cursor;
pub use crate::slice::find;
pub use crate::slice::get_slice_between;
pub use crate::slice::with_sequence_removed;
pub use crate::slice::WithSequenceRemoved;
pub use crate::span::Span;
pub use crate::span::SpanIterator;
pub use crate::split::InclusiveSplitIterator;
pub use crate::split::Split;
pub use crate::split::SplitInclusive;
pub use crate::split::SplitIterator;
pub use crate::text::char_length;
pub use crate::text::char_span;
pub use crate::text::span_from_addrs;
pub use crate::text::substr_pos;
pub use crate::wrappers::DontDrop;
