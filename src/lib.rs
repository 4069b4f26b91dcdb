//! Typed request building for the gewe contacts gateway.
//!
//! Each operation is turned into one outbound request (a route and a JSON
//! body whose text is stated exactly), and the gateway's reply is classified
//! into a parsed JSON value, a transport error or a decoding error.

pub mod json;
pub mod payload;
pub mod error;
pub mod wxid;
pub mod request;
pub mod contacts;
