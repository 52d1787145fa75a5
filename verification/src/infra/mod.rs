//! Cross-cutting pieces: the shared error type and locale helpers.

pub mod error;
pub mod i18n;
