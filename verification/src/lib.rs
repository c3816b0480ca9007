//! A closed set of recognised file extensions.
//!
//! [`ValidFileExtensions`] has one variant for each extension and converts
//! to and from a canonical lowercase name. Text that is not exactly one of
//! those names is rejected with a [`ValidFileExtensionsError`] that carries
//! the text. The conversions, the order of the variants and the laws that
//! connect them are verified.

pub mod error;
pub mod extension;
pub mod lemmas;
pub mod order;
pub mod text;

pub use error::ValidFileExtensionsError;
pub use extension::ValidFileExtensions;
