//! The OS string types, under the path that callers of the string types expect.

pub use crate::i_os_str::IOsStr;
pub use crate::mow_os_str::MowOsStr;
