//! A small, verified image-delivery decision pipeline for an edge HTTP
//! handler that serves a single "hero" image asset.
//!
//! The pipeline has four stages:
//! - the request parameter resolver turns a raw query string into a
//!   normalized [`model::RequestDescriptor`] (format, quality, image id);
//! - the image source selector decides whether the asset is served from an
//!   embedded byte buffer, fetched from a remote origin, or unsupported;
//! - the fetch policy module fixes the outbound retrieval rules (timeout,
//!   pooling) and classifies origin responses into a
//!   [`model::FetchOutcome`];
//! - the response composer builds the final status, header set and body.
//!
//! Network I/O itself lives outside this crate; the crate contains every
//! decision the handler makes, with contracts that pin each one down.

pub mod compose;
pub mod digits;
pub mod fetch;
pub mod model;
pub mod resolve;
pub mod select;
pub mod warmup;
