//! A small verified mail relay core: an SMTP submission state machine,
//! a MIME body extractor and message converter, and the signing protocol
//! of an HMAC-authenticated mail delivery API.

pub mod azure;
pub mod date;
pub mod json;
pub mod mail;
pub mod smtp;
pub mod text;
