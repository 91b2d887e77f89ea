use hero_image::compose::compose;
use hero_image::fetch::classify_origin_response;
use hero_image::model::FetchOutcome;
use hero_image::model::HttpResponse;
use hero_image::model::ImageFormat;
use hero_image::model::RequestDescriptor;
use hero_image::model::SourceOutcome;
use hero_image::model::TransportCause;

fn desc(format: ImageFormat, quality: u32) -> RequestDescriptor {
    RequestDescriptor { format, quality, image_id: "lfam.avif".to_owned() }
}

fn header<'a>(resp: &'a HttpResponse, name: &str) -> Option<&'a str> {
    resp.headers.iter().find(|(n, _)| n == name).map(|(_, v)| v.as_str())
}

const CACHE_DIRECTIVE: &str = "public, max-age=31536000, s-maxage=31536000, immutable";

#[test]
fn unsupported_source_is_uncached_404() {
    let resp = compose(&desc(ImageFormat::Avif, 90), SourceOutcome::Unsupported);
    assert_eq!(resp.status, 404);
    assert_eq!(header(&resp, "content-type"), Some("text/plain"));
    assert!(header(&resp, "cache-control").is_none());
    assert_eq!(resp.headers.len(), 1);
}

#[test]
fn embedded_success_has_exact_length_and_immutable_cache() {
    let body = vec![10u8, 20, 30, 40, 50];
    let resp = compose(&desc(ImageFormat::Avif, 90), SourceOutcome::Embedded(body.clone()));
    assert_eq!(resp.status, 200);
    assert_eq!(resp.body, body);
    assert_eq!(header(&resp, "content-length"), Some("5"));
    assert_eq!(header(&resp, "cache-control"), Some(CACHE_DIRECTIVE));
    assert_eq!(header(&resp, "x-image-source"), Some("embedded"));
}

#[test]
fn remote_success_has_full_header_set() {
    let body = vec![1u8, 2, 3];
    let out = classify_origin_response(200, body.clone());
    let resp = compose(&desc(ImageFormat::Png, 55), SourceOutcome::Remote(out));
    assert_eq!(resp.status, 200);
    assert_eq!(resp.body, body);
    assert_eq!(header(&resp, "content-type"), Some("image/png"));
    assert_eq!(header(&resp, "content-length"), Some("3"));
    assert_eq!(header(&resp, "cache-control"), Some(CACHE_DIRECTIVE));
    assert_eq!(header(&resp, "x-content-type-options"), Some("nosniff"));
    assert_eq!(header(&resp, "referrer-policy"), Some("strict-origin-when-cross-origin"));
    assert_eq!(header(&resp, "vary"), Some("Accept, Accept-Encoding"));
    assert_eq!(header(&resp, "x-image-format"), Some("png"));
    assert_eq!(header(&resp, "x-image-quality"), Some("55"));
    assert_eq!(header(&resp, "x-image-source"), Some("remote"));
}

#[test]
fn simulated_timeout_yields_handled_502() {
    let out = FetchOutcome::TransportError(TransportCause::Timeout);
    let resp = compose(&desc(ImageFormat::Avif, 90), SourceOutcome::Remote(out));
    assert_eq!(resp.status, 502);
    assert!(resp.status < 200 || resp.status >= 300);
    assert_eq!(header(&resp, "content-type"), Some("text/plain"));
    assert!(header(&resp, "cache-control").is_none());
    assert_eq!(resp.body, b"Upstream image fetch failed".to_vec());
}

#[test]
fn origin_500_collapses_to_not_found_404() {
    let out = classify_origin_response(500, b"internal error page".to_vec());
    assert!(matches!(out, FetchOutcome::NotFound));
    let resp = compose(&desc(ImageFormat::Avif, 90), SourceOutcome::Remote(out));
    assert_eq!(resp.status, 404);
    assert!(header(&resp, "cache-control").is_none());
}

#[test]
fn origin_404_collapses_to_not_found_404() {
    let out = classify_origin_response(404, Vec::new());
    assert!(matches!(out, FetchOutcome::NotFound));
}

#[test]
fn origin_2xx_succeeds_with_same_bytes() {
    let out = classify_origin_response(204, vec![9u8]);
    assert!(matches!(out, FetchOutcome::Success(ref b) if *b == vec![9u8]));
}

#[test]
fn transport_causes_never_reach_the_body() {
    for cause in [
        TransportCause::Timeout,
        TransportCause::Dns,
        TransportCause::Connect,
        TransportCause::Tls,
        TransportCause::Other,
    ] {
        let resp = compose(
            &desc(ImageFormat::Avif, 90),
            SourceOutcome::Remote(FetchOutcome::TransportError(cause)),
        );
        assert_eq!(resp.status, 502);
        assert_eq!(resp.body, b"Upstream image fetch failed".to_vec());
    }
}
