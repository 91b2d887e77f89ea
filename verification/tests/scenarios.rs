//! End-to-end runs of the whole pipeline: resolve, select, compose.

use hero_image::compose::compose;
use hero_image::model::HttpResponse;
use hero_image::model::ImageFormat;
use hero_image::model::ImageSource;
use hero_image::model::SourceOutcome;
use hero_image::resolve::resolve;
use hero_image::select::select;
use hero_image::select::CanonicalMode;
use hero_image::select::SelectorConfig;

fn header<'a>(resp: &'a HttpResponse, name: &str) -> Option<&'a str> {
    resp.headers.iter().find(|(n, _)| n == name).map(|(_, v)| v.as_str())
}

#[test]
fn hero_webp_q75_serves_canonical_asset() {
    let asset = vec![0xAAu8, 0xBB, 0xCC, 0xDD];
    let config = SelectorConfig {
        canonical_id: "lfam.avif".to_owned(),
        mode: CanonicalMode::Embedded(asset.clone()),
    };
    let desc = resolve("format=webp&q=75", &config.canonical_id);
    assert_eq!(desc.format, ImageFormat::Webp);
    assert_eq!(desc.quality, 75);
    assert_eq!(desc.image_id, "lfam.avif");

    let source = select(&desc.image_id, &config);
    let outcome = match source {
        ImageSource::Embedded(bytes) => SourceOutcome::Embedded(bytes),
        _ => panic!("canonical asset must resolve to the embedded source"),
    };
    let resp = compose(&desc, outcome);
    assert_eq!(resp.status, 200);
    assert_eq!(header(&resp, "content-type"), Some("image/webp"));
    assert_eq!(resp.body, asset);
    assert_eq!(header(&resp, "x-image-quality"), Some("75"));
    assert_eq!(header(&resp, "content-length"), Some("4"));
}

#[test]
fn unknown_name_is_plain_uncached_404() {
    let config = SelectorConfig {
        canonical_id: "lfam.avif".to_owned(),
        mode: CanonicalMode::Embedded(vec![1u8, 2, 3]),
    };
    let desc = resolve("name=unknown.avif", &config.canonical_id);
    assert_eq!(desc.image_id, "unknown.avif");

    let source = select(&desc.image_id, &config);
    assert!(matches!(source, ImageSource::Unsupported));
    let resp = compose(&desc, SourceOutcome::Unsupported);
    assert_eq!(resp.status, 404);
    assert_eq!(header(&resp, "content-type"), Some("text/plain"));
    assert!(header(&resp, "cache-control").is_none());
    assert!(std::str::from_utf8(&resp.body).is_ok());
}

#[test]
fn warmup_payload_has_fixed_shape() {
    let body = hero_image::warmup::warmup_body("2024-01-01T00:00:00+00:00");
    assert_eq!(
        body,
        "{\"status\":\"warm\",\"function\":\"hero-image\",\"timestamp\":\"2024-01-01T00:00:00+00:00\"}"
    );
}
