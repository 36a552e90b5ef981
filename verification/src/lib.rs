//! Small, independent building blocks for a native library that is called
//! across a foreign-function boundary: integer helpers, reversal of
//! caller-supplied byte buffers, and text that is handed out as a
//! NUL-terminated string and reclaimed through a single ownership slot.
//!
//! Everything here works on plain values and borrowed slices. Turning raw
//! addresses into slices, printing, floating-point geometry and holding the
//! process-wide slot are left to the code that wraps this crate.

pub mod arith;
pub mod buffer;
pub mod managed;
pub mod text;

pub use arith::{invert, isOdd, square};
pub use buffer::{inverse_in_place, inverse_with_second_array};
pub use managed::{format_string, free_string, store_string_on_heap, ManagedString, StringSlot};
pub use text::{printc, DecodeError};
