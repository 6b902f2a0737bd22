//! Library of an on-demand media gateway: given a magnet identifier and a
//! filename it locates or acquires the file under a storage root and serves
//! it with HTTP byte-range semantics, alongside the URL and cache-key
//! computation of the metadata proxy endpoints.
//!
//! The server around the library does the walking, spawning, opening and
//! sending; every decision — what a `Range` header means, which bytes go
//! out, when the download agent runs, which status answers — is made and
//! proved here.

pub mod text;
pub mod range;
pub mod magnet;
pub mod locate;
pub mod gateway;
pub mod proxy;
