//! The image source selector: decides, from the resolved identifier and
//! the injected configuration, whether the asset is served from the
//! embedded buffer, fetched from a remote origin, or unsupported.
//!
//! The permissive rule that any identifier with a recognized URL scheme
//! prefix is fetched as-is mirrors the deployed behavior; it is a
//! deliberate pass-through, not a validation gap closed here.

use crate::model::ImageSource;
use vstd::prelude::*;
use vstd::utf8::encode_utf8;

verus! {

/// How the canonical asset is served: from an embedded byte buffer, or by
/// fetching a configured origin URL. The two are mutually exclusive
/// deployment modes, chosen at startup.
pub enum CanonicalMode {
    /// Serve these process-wide, immutable bytes directly.
    Embedded(Vec<u8>),
    /// Fetch the asset from this origin URL.
    Fetch(String),
}

/// The selector's injected configuration: the canonical identifier and the
/// mode in which the canonical asset is served.
pub struct SelectorConfig {
    /// The identifier served when a request names nothing else.
    pub canonical_id: String,
    /// How the canonical asset's bytes are obtained.
    pub mode: CanonicalMode,
}

/// Whether the UTF-8 encoding of an identifier starts with `http` — the
/// recognized URL scheme prefix that makes an identifier a pass-through
/// origin URL (it covers both `http://` and `https://`).
pub open spec fn has_url_scheme_prefix(b: Seq<u8>) -> bool {
    b.len() >= 4 && b[0] == 'h' as u8 && b[1] == 't' as u8 && b[2] == 't' as u8 && b[3] == 'p'
        as u8
}

fn starts_with_http(s: &str) -> (r: bool)
    ensures
        r == has_url_scheme_prefix(encode_utf8(s@)),
{
    let b = s.as_bytes();
    b.len() >= 4 && b[0] == 'h' as u8 && b[1] == 't' as u8 && b[2] == 't' as u8 && b[3] == 'p'
        as u8
}

/// Decides where `image_id`'s bytes come from. A pure decision: the
/// canonical identifier maps to the configured mode, any other identifier
/// with a URL scheme prefix passes through as a remote origin, and
/// everything else is unsupported.
pub fn select(image_id: &String, config: &SelectorConfig) -> (src: ImageSource)
    ensures
        (image_id@ == config.canonical_id@ && config.mode is Embedded) ==> (src matches
            ImageSource::Embedded(b) && b@ == config.mode->Embedded_0@),
        (image_id@ == config.canonical_id@ && config.mode is Fetch) ==> (src matches
            ImageSource::Remote(u) && u@ == config.mode->Fetch_0@),
        (image_id@ != config.canonical_id@ && has_url_scheme_prefix(encode_utf8(image_id@)))
            ==> (src matches ImageSource::Remote(u) && u@ == image_id@),
        (image_id@ != config.canonical_id@ && !has_url_scheme_prefix(encode_utf8(image_id@)))
            ==> src is Unsupported,
{
    if image_id.eq(&config.canonical_id) {
        match &config.mode {
            CanonicalMode::Embedded(bytes) => {
                let served = vstd::slice::slice_to_vec(bytes.as_slice());
                ImageSource::Embedded(served)
            },
            CanonicalMode::Fetch(url) => ImageSource::Remote(url.clone()),
        }
    } else if starts_with_http(image_id.as_str()) {
        ImageSource::Remote(image_id.clone())
    } else {
        ImageSource::Unsupported
    }
}

} // verus!
