//! A typed client surface for a torrent daemon's JSON request/response
//! protocol: request builders that produce the exact wire text for each
//! remote method, a catalog of retrievable torrent attributes with their
//! canonical wire names, and a decoder that turns reply payloads into
//! strongly typed result records.
pub mod fields;
pub mod json;
pub mod request;
pub mod response;
pub mod wire;
