//! A growable buffer of Unicode scalar values that is filled by appending
//! values in their textual form and read back as a `String`.
//!
//! Every operation carries a contract over the buffer's view, a `Seq<char>`.

pub mod builder;
pub mod decimal;
pub mod error;
pub mod lemmas;
pub mod vcharsable;

pub use builder::StringBuilder;
pub use error::DeleteError;
pub use vcharsable::Vcharsable;
