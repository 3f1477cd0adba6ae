//! Interned strings: a pool that keeps one shared cell per distinct content, and
//! string types that live either in the pool or in a private, mutable buffer.
//!
//! - [`pool`] holds the pool itself and the handle on one of its cells.
//! - [`IStr`] is a string that lives in a pool; it cannot be changed.
//! - [`MowStr`] is mutable on write: shared, in a pool, until it is changed, and
//!   exclusive, in a private buffer, from then on until it is interned again.
//! - [`ffi`] has the same two types for OS strings, held as bytes.
//! - [`prc`] holds the shared cell by itself.
//!
//! Every contract speaks of a string by its view: the text, a sequence of
//! characters, or for OS strings the bytes; and of a pool by the set of contents
//! it holds a cell for.

pub mod buffer;
pub mod ffi;
pub mod i_os_str;
pub mod intern;
pub mod istr;
pub mod mow_os_str;
pub mod mow_str;
pub mod order;
pub mod pool;
pub mod prc;
pub mod text;

pub use intern::Interning;
pub use intern::Muterning;
pub use istr::IStr;
pub use mow_str::MowStr;
