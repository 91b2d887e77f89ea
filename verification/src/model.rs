//! The request-scoped value objects that flow through the pipeline.

use vstd::prelude::*;

verus! {

/// The image representation a client asked for.
///
/// `Unknown` exists so that a descriptor can carry a format that no stage
/// recognized; the resolver itself never produces it (unrecognized query
/// values degrade to `Avif`), and the composer maps it to the AVIF MIME
/// type.
#[derive(Clone, Copy, Debug, PartialEq, Eq, Structural)]
pub enum ImageFormat {
    Avif,
    Webp,
    Jpeg,
    Png,
    Unknown,
}

/// The normalized form of one inbound request, built once by the resolver
/// and immutable afterwards.
pub struct RequestDescriptor {
    /// Requested image format; defaults to `Avif`.
    pub format: ImageFormat,
    /// Quality hint; defaults to 90, echoed as a diagnostic header and
    /// deliberately not range-checked.
    pub quality: u32,
    /// Requested asset identifier; defaults to the configured canonical id.
    pub image_id: String,
}

/// Where the requested asset's bytes come from.
pub enum ImageSource {
    /// The process-wide embedded asset buffer.
    Embedded(Vec<u8>),
    /// An absolute URL to fetch the bytes from.
    Remote(String),
    /// The identifier matches nothing we can serve; terminal 404.
    Unsupported,
}

/// Why a remote retrieval failed below the HTTP layer. The cause is kept
/// for logging only and never exposed to the client.
#[derive(Clone, Copy, Debug, PartialEq, Eq, Structural)]
pub enum TransportCause {
    /// The fetch exceeded the hard wall-clock timeout.
    Timeout,
    /// Name resolution failed.
    Dns,
    /// The connection could not be established.
    Connect,
    /// The TLS handshake failed.
    Tls,
    /// Any other transport-level failure.
    Other,
}

/// The result of one remote retrieval attempt.
pub enum FetchOutcome {
    /// A 2xx origin response, with the full body materialized in memory.
    Success(Vec<u8>),
    /// A non-2xx origin response; 404 and 500 are deliberately collapsed.
    NotFound,
    /// A transport-level failure (DNS, connect, TLS, timeout).
    TransportError(TransportCause),
}

/// What retrieval produced for a request, as the composer consumes it.
pub enum SourceOutcome {
    /// No source matched the identifier.
    Unsupported,
    /// The embedded asset's bytes.
    Embedded(Vec<u8>),
    /// The outcome of a remote fetch.
    Remote(FetchOutcome),
}

/// A complete outbound HTTP response: status code, ordered header list,
/// and body bytes.
pub struct HttpResponse {
    /// HTTP status code.
    pub status: u16,
    /// Ordered header name/value pairs.
    pub headers: Vec<(String, String)>,
    /// Response body.
    pub body: Vec<u8>,
}

} // verus!
