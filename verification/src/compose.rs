//! The response composer: builds the outbound status, ordered header set
//! and body from the request descriptor and the retrieval outcome.
//!
//! The composer is a terminal state machine: unsupported sources and
//! failed origin lookups end in an uncached 404, transport failures in a
//! handled 502 with no internal detail, and served bytes in a 200 whose
//! header set is a deterministic function of the descriptor and the body
//! length alone.

use crate::digits::decimal_chars;
use crate::digits::u64_to_decimal;
use crate::model::FetchOutcome;
use crate::model::HttpResponse;
use crate::model::ImageFormat;
use crate::model::RequestDescriptor;
use crate::model::SourceOutcome;
use crate::resolve::format_of_param;
use vstd::prelude::*;
use vstd::slice::slice_to_vec;
use vstd::utf8::encode_utf8;

verus! {

/// The MIME type served for a format; formats the mapping does not cover
/// fall back to the AVIF MIME type.
pub open spec fn spec_mime(f: ImageFormat) -> Seq<char> {
    match f {
        ImageFormat::Avif => "image/avif"@,
        ImageFormat::Webp => "image/webp"@,
        ImageFormat::Jpeg => "image/jpeg"@,
        ImageFormat::Png => "image/png"@,
        ImageFormat::Unknown => "image/avif"@,
    }
}

fn mime_str(f: ImageFormat) -> (s: &'static str)
    ensures
        s@ == spec_mime(f),
{
    match f {
        ImageFormat::Avif => "image/avif",
        ImageFormat::Webp => "image/webp",
        ImageFormat::Jpeg => "image/jpeg",
        ImageFormat::Png => "image/png",
        ImageFormat::Unknown => "image/avif",
    }
}

/// The diagnostic label a format is echoed under.
pub open spec fn spec_format_label(f: ImageFormat) -> Seq<char> {
    match f {
        ImageFormat::Avif => "avif"@,
        ImageFormat::Webp => "webp"@,
        ImageFormat::Jpeg => "jpeg"@,
        ImageFormat::Png => "png"@,
        ImageFormat::Unknown => "unknown"@,
    }
}

fn format_label_str(f: ImageFormat) -> (s: &'static str)
    ensures
        s@ == spec_format_label(f),
{
    match f {
        ImageFormat::Avif => "avif",
        ImageFormat::Webp => "webp",
        ImageFormat::Jpeg => "jpeg",
        ImageFormat::Png => "png",
        ImageFormat::Unknown => "unknown",
    }
}

/// The immutable long-lived cache directive attached to every 200
/// response — the dominant performance contract of the whole system.
pub open spec fn spec_cache_directive() -> Seq<char> {
    "public, max-age=31536000, s-maxage=31536000, immutable"@
}

/// The header set of every non-200 response: a plain-text content type and
/// nothing else — in particular, no caching directives.
pub open spec fn spec_plain_headers() -> Seq<(Seq<char>, Seq<char>)> {
    seq![("content-type"@, "text/plain"@)]
}

/// The full, ordered header set of a 200 response, derived from the
/// requested format and quality, the source label, and the exact byte
/// length of the body being returned.
pub open spec fn spec_success_headers(
    f: ImageFormat,
    quality: u32,
    source_label: Seq<char>,
    body_len: nat,
) -> Seq<(Seq<char>, Seq<char>)> {
    seq![
        ("content-type"@, spec_mime(f)),
        ("cache-control"@, spec_cache_directive()),
        ("content-length"@, decimal_chars(body_len)),
        ("x-content-type-options"@, "nosniff"@),
        ("referrer-policy"@, "strict-origin-when-cross-origin"@),
        ("vary"@, "Accept, Accept-Encoding"@),
        ("x-image-format"@, spec_format_label(f)),
        ("x-image-quality"@, decimal_chars(quality as nat)),
        ("x-image-source"@, source_label),
    ]
}

fn plain_response(status: u16, msg: &str) -> (resp: HttpResponse)
    ensures
        resp.status == status,
        resp.headers.deep_view() == spec_plain_headers(),
        resp.body@ == encode_utf8(msg@),
{
    let mut headers: Vec<(String, String)> = Vec::new();
    headers.push(("content-type".to_owned(), "text/plain".to_owned()));
    proof {
        assert(headers.deep_view() =~= spec_plain_headers());
    }
    let body = slice_to_vec(msg.as_bytes());
    HttpResponse { status, headers, body }
}

fn success_response(desc: &RequestDescriptor, source_label: &'static str, body: Vec<u8>) -> (resp:
    HttpResponse)
    ensures
        resp.status == 200,
        resp.headers.deep_view() == spec_success_headers(
            desc.format,
            desc.quality,
            source_label@,
            body@.len(),
        ),
        resp.body@ == body@,
{
    let mut headers: Vec<(String, String)> = Vec::new();
    headers.push(("content-type".to_owned(), mime_str(desc.format).to_owned()));
    headers.push((
        "cache-control".to_owned(),
        "public, max-age=31536000, s-maxage=31536000, immutable".to_owned(),
    ));
    headers.push(("content-length".to_owned(), u64_to_decimal(body.len() as u64)));
    headers.push(("x-content-type-options".to_owned(), "nosniff".to_owned()));
    headers.push(("referrer-policy".to_owned(), "strict-origin-when-cross-origin".to_owned()));
    headers.push(("vary".to_owned(), "Accept, Accept-Encoding".to_owned()));
    headers.push(("x-image-format".to_owned(), format_label_str(desc.format).to_owned()));
    headers.push(("x-image-quality".to_owned(), u64_to_decimal(desc.quality as u64)));
    headers.push(("x-image-source".to_owned(), source_label.to_owned()));
    proof {
        assert(headers.deep_view() =~= spec_success_headers(
            desc.format,
            desc.quality,
            source_label@,
            body@.len(),
        ));
    }
    HttpResponse { status: 200, headers, body }
}

/// Builds the outbound response. Terminal on the first matching branch:
/// - an unsupported source is an uncached plain-text 404;
/// - embedded bytes and successfully fetched bytes are a 200 carrying the
///   full deterministic header set and the bytes themselves, unchanged —
///   the requested format picks headers, never a transcode;
/// - a failed origin lookup is an uncached plain-text 404, with origin
///   404 and origin 500 deliberately indistinguishable;
/// - a transport failure is a handled plain-text 502 that leaks nothing
///   of the underlying cause.
pub fn compose(desc: &RequestDescriptor, outcome: SourceOutcome) -> (resp: HttpResponse)
    ensures
        outcome is Unsupported ==> resp.status == 404 && resp.headers.deep_view()
            == spec_plain_headers() && resp.body@ == encode_utf8("Unsupported image identifier"@),
        (outcome matches SourceOutcome::Embedded(b) ==> resp.status == 200 && resp.body@ == b@
            && resp.headers.deep_view() == spec_success_headers(
            desc.format,
            desc.quality,
            "embedded"@,
            b@.len(),
        )),
        (outcome matches SourceOutcome::Remote(FetchOutcome::Success(b)) ==> resp.status == 200
            && resp.body@ == b@ && resp.headers.deep_view() == spec_success_headers(
            desc.format,
            desc.quality,
            "remote"@,
            b@.len(),
        )),
        outcome matches SourceOutcome::Remote(FetchOutcome::NotFound) ==> resp.status == 404
            && resp.headers.deep_view() == spec_plain_headers() && resp.body@ == encode_utf8(
            "Image not found"@,
        ),
        (outcome matches SourceOutcome::Remote(FetchOutcome::TransportError(c)) ==> resp.status
            == 502 && resp.headers.deep_view() == spec_plain_headers() && resp.body@
            == encode_utf8("Upstream image fetch failed"@)),
{
    match outcome {
        SourceOutcome::Unsupported => plain_response(404, "Unsupported image identifier"),
        SourceOutcome::Embedded(bytes) => success_response(desc, "embedded", bytes),
        SourceOutcome::Remote(FetchOutcome::Success(bytes)) => success_response(
            desc,
            "remote",
            bytes,
        ),
        SourceOutcome::Remote(FetchOutcome::NotFound) => plain_response(404, "Image not found"),
        SourceOutcome::Remote(FetchOutcome::TransportError(_)) => plain_response(
            502,
            "Upstream image fetch failed",
        ),
    }
}

/// No non-200 response carries a caching header: every header name in the
/// plain header set differs from `cache-control`.
pub proof fn lemma_plain_headers_uncached()
    ensures
        forall|i: int|
            0 <= i < spec_plain_headers().len() ==> (#[trigger] spec_plain_headers()[i]).0
                != "cache-control"@,
{
    reveal_strlit("content-type");
    reveal_strlit("cache-control");
    assert("content-type"@.len() == 12);
    assert("cache-control"@.len() == 13);
}

/// Every 200 response's header set carries the immutable cache directive
/// verbatim, and a `content-length` equal to the decimal rendering of the
/// exact byte length of the body being returned.
pub proof fn lemma_success_headers_cache_and_length(
    f: ImageFormat,
    quality: u32,
    source_label: Seq<char>,
    body_len: nat,
)
    ensures
        spec_success_headers(f, quality, source_label, body_len)[1] == ("cache-control"@,
        spec_cache_directive()),
        spec_success_headers(f, quality, source_label, body_len)[2] == ("content-length"@,
        decimal_chars(body_len)),
{
}

/// Feeding the value the quality is echoed under back through the
/// resolver's quality parsing yields the same quality: the diagnostic
/// header is a faithful echo.
pub proof fn lemma_quality_echo_reparses(q: u32)
    ensures
        crate::resolve::quality_of_param(decimal_chars(q as nat)) == q,
{
    let chars = decimal_chars(q as nat);
    crate::digits::lemma_decimal_value_roundtrip(q as nat);
    crate::digits::lemma_decimal_chars_are_digits(q as nat);
    assert(vstd::utf8::is_ascii_chars(chars));
    vstd::utf8::is_ascii_chars_encode_utf8(chars);
    assert(encode_utf8(chars) =~= crate::digits::digit_bytes_of(chars));
}

/// Re-parsing the label a resolved format is echoed under yields that
/// same format again: resolution is idempotent under re-parsing.
pub proof fn lemma_format_reparse_idempotent(v: Seq<char>)
    ensures
        format_of_param(spec_format_label(format_of_param(v))) == format_of_param(v),
{
    reveal_strlit("avif");
    reveal_strlit("webp");
    reveal_strlit("jpg");
    reveal_strlit("jpeg");
    reveal_strlit("png");
    assert("avif"@.len() == 4 && "webp"@.len() == 4 && "jpg"@.len() == 3 && "jpeg"@.len() == 4
        && "png"@.len() == 3);
    assert("avif"@[0] == 'a' && "webp"@[0] == 'w' && "jpeg"@[0] == 'j' && "jpg"@[0] == 'j'
        && "png"@[0] == 'p');
    assert("jpg"@[1] == 'p' && "png"@[1] == 'n');
}

} // verus!
