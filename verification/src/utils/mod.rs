//! Application-wide helpers: languages and translations, API responses,
//! error values and validation.
pub mod api_response;
pub mod error;
pub mod error_handler;
pub mod i18n;
pub mod language;
pub mod migration;
