//! Decoder for the Presentation Graphic Stream (`.sup`) subtitle format.
//!
//! The stream is a sequence of typed, length-prefixed segments. The modules
//! below go from the leaves up: big-endian integers, the byte cursor, the
//! run-length bitmap scheme, the segment decoders, and the state machine that
//! folds segments into display sets.

pub mod codec;
pub mod composition;
pub mod display_set;
pub mod error;
pub mod object;
pub mod palette;
pub mod reader;
pub mod rle;
pub mod segment;
pub mod stream;
pub mod table;
pub mod u24;
pub mod window;
