//! Unified mail provider gateway: one canonical contract over three upstream
//! mail services, with verified adapter logic, a verified pagination-cursor
//! cache, an envelope codec for the raw-message provider, and a verified
//! thread collapser.
pub mod aggregate;
pub mod b64;
pub mod cache;
pub mod codec;
pub mod error;
pub mod facade;
pub mod gmail;
pub mod mime_raw;
pub mod model;
pub mod outlook;
pub mod postmark;
pub mod quote;
pub mod strutil;
