//! The request parameter resolver: raw query string in, normalized
//! [`RequestDescriptor`] out.
//!
//! Resolution never fails. Unrecognized `format` values degrade to AVIF,
//! unparsable `q` values degrade to 90, and a missing `name`/`image`
//! parameter degrades to the configured canonical identifier.

use crate::digits::dec_value;
use crate::digits::is_u32_decimal;
use crate::digits::parse_u32_decimal;
use crate::model::ImageFormat;
use crate::model::RequestDescriptor;
use vstd::prelude::*;
use vstd::utf8::encode_utf8;

verus! {

/// The name/value pairs that URL-decoding a query string yields, in order.
/// This is whatever `url::form_urlencoded` decodes; the crate states
/// nothing about the decoding itself beyond its determinism.
pub uninterp spec fn query_pairs_of(q: Seq<char>) -> Seq<(Seq<char>, Seq<char>)>;

/// Relies on `url::form_urlencoded::parse` (with `into_owned`) to split a
/// query string at `&` and `=` and percent-decode each name and value; the
/// result is a function of the input bytes alone, and an empty input
/// yields no pairs.
#[verifier::external_body]
fn parse_query(q: &str) -> (pairs: Vec<(String, String)>)
    ensures
        pairs.deep_view() == query_pairs_of(q@),
        q@.len() == 0 ==> pairs.deep_view().len() == 0,
{
    url::form_urlencoded::parse(q.as_bytes()).into_owned().collect()
}

/// The value of the last pair named `key`, if any. Later occurrences of a
/// repeated parameter override earlier ones.
pub open spec fn spec_lookup(pairs: Seq<(Seq<char>, Seq<char>)>, key: Seq<char>) -> Option<
    Seq<char>,
>
    decreases pairs.len(),
{
    if pairs.len() == 0 {
        None
    } else if pairs.last().0 == key {
        Some(pairs.last().1)
    } else {
        spec_lookup(pairs.drop_last(), key)
    }
}

fn lookup_param(pairs: &Vec<(String, String)>, key: &String) -> (r: Option<String>)
    ensures
        r is Some <==> spec_lookup(pairs.deep_view(), key@) is Some,
        r matches Some(v) ==> spec_lookup(pairs.deep_view(), key@) == Some(v@),
{
    let mut i: usize = pairs.len();
    proof {
        assert(pairs.deep_view().take(i as int) =~= pairs.deep_view());
    }
    while i > 0
        invariant
            0 <= i <= pairs.len(),
            pairs.deep_view().len() == pairs.len(),
            spec_lookup(pairs.deep_view(), key@) == spec_lookup(
                pairs.deep_view().take(i as int),
                key@,
            ),
        decreases i,
    {
        i = i - 1;
        let p = &pairs[i];
        proof {
            assert(pairs.deep_view().take(i + 1).drop_last() =~= pairs.deep_view().take(i as int));
            assert(pairs.deep_view().take(i + 1).last() == pairs.deep_view()[i as int]);
            assert(pairs.deep_view()[i as int] == (p.0@, p.1@));
        }
        if p.0.eq(key) {
            return Some(p.1.clone());
        }
    }
    proof {
        assert(pairs.deep_view().take(0) =~= Seq::<(Seq<char>, Seq<char>)>::empty());
    }
    None
}

/// The format a `format` parameter value resolves to: a case-sensitive
/// match against the recognized names, `jpg` and `jpeg` being synonyms;
/// anything else degrades to AVIF.
pub open spec fn format_of_param(v: Seq<char>) -> ImageFormat {
    if v == "avif"@ {
        ImageFormat::Avif
    } else if v == "webp"@ {
        ImageFormat::Webp
    } else if v == "jpg"@ {
        ImageFormat::Jpeg
    } else if v == "jpeg"@ {
        ImageFormat::Jpeg
    } else if v == "png"@ {
        ImageFormat::Png
    } else {
        ImageFormat::Avif
    }
}

fn format_from_param(v: &String) -> (f: ImageFormat)
    ensures
        f == format_of_param(v@),
{
    if v.eq(&"avif".to_owned()) {
        ImageFormat::Avif
    } else if v.eq(&"webp".to_owned()) {
        ImageFormat::Webp
    } else if v.eq(&"jpg".to_owned()) {
        ImageFormat::Jpeg
    } else if v.eq(&"jpeg".to_owned()) {
        ImageFormat::Jpeg
    } else if v.eq(&"png".to_owned()) {
        ImageFormat::Png
    } else {
        ImageFormat::Avif
    }
}

/// Default quality when `q` is absent or does not parse.
pub const DEFAULT_QUALITY: u32 = 90;

/// The quality a `q` parameter value resolves to: its value as an unsigned
/// 32-bit decimal numeral, or 90 when it is not one. No range check is
/// applied beyond fitting in 32 bits — the hint is echoed, not enforced.
pub open spec fn quality_of_param(v: Seq<char>) -> u32 {
    if is_u32_decimal(encode_utf8(v)) {
        dec_value(encode_utf8(v)) as u32
    } else {
        90
    }
}

fn quality_from_param(v: &String) -> (q: u32)
    ensures
        q == quality_of_param(v@),
{
    match parse_u32_decimal(v.as_str().as_bytes()) {
        Some(n) => n,
        None => DEFAULT_QUALITY,
    }
}

/// The format the whole query resolves to.
pub open spec fn spec_resolved_format(pairs: Seq<(Seq<char>, Seq<char>)>) -> ImageFormat {
    match spec_lookup(pairs, "format"@) {
        Some(v) => format_of_param(v),
        None => ImageFormat::Avif,
    }
}

/// The quality the whole query resolves to.
pub open spec fn spec_resolved_quality(pairs: Seq<(Seq<char>, Seq<char>)>) -> u32 {
    match spec_lookup(pairs, "q"@) {
        Some(v) => quality_of_param(v),
        None => DEFAULT_QUALITY,
    }
}

/// The asset identifier the whole query resolves to: `name` if present,
/// else `image`, else the configured canonical identifier.
pub open spec fn spec_resolved_id(pairs: Seq<(Seq<char>, Seq<char>)>, canonical: Seq<char>) -> Seq<
    char,
> {
    match spec_lookup(pairs, "name"@) {
        Some(v) => v,
        None => match spec_lookup(pairs, "image"@) {
            Some(v) => v,
            None => canonical,
        },
    }
}

/// Resolves already-decoded name/value pairs into a descriptor. Total:
/// every failure mode degrades to a default.
pub fn resolve_params(pairs: &Vec<(String, String)>, canonical_id: &String) -> (desc:
    RequestDescriptor)
    ensures
        desc.format == spec_resolved_format(pairs.deep_view()),
        desc.quality == spec_resolved_quality(pairs.deep_view()),
        desc.image_id@ == spec_resolved_id(pairs.deep_view(), canonical_id@),
{
    let format = match lookup_param(pairs, &"format".to_owned()) {
        Some(v) => format_from_param(&v),
        None => ImageFormat::Avif,
    };
    let quality = match lookup_param(pairs, &"q".to_owned()) {
        Some(v) => quality_from_param(&v),
        None => DEFAULT_QUALITY,
    };
    let image_id = match lookup_param(pairs, &"name".to_owned()) {
        Some(v) => v,
        None => match lookup_param(pairs, &"image".to_owned()) {
            Some(v) => v,
            None => canonical_id.clone(),
        },
    };
    RequestDescriptor { format, quality, image_id }
}

/// Resolves a raw query string into a descriptor: URL-decodes it, then
/// resolves the pairs. Total: every failure mode degrades to a default.
pub fn resolve(raw_query: &str, canonical_id: &String) -> (desc: RequestDescriptor)
    ensures
        desc.format == spec_resolved_format(query_pairs_of(raw_query@)),
        desc.quality == spec_resolved_quality(query_pairs_of(raw_query@)),
        desc.image_id@ == spec_resolved_id(query_pairs_of(raw_query@), canonical_id@),
{
    let pairs = parse_query(raw_query);
    resolve_params(&pairs, canonical_id)
}

/// Every `format` value outside the recognized set — the empty value
/// included — resolves to AVIF, and so does an absent parameter.
pub proof fn lemma_unrecognized_format_defaults(v: Seq<char>)
    requires
        v != "avif"@,
        v != "webp"@,
        v != "jpg"@,
        v != "jpeg"@,
        v != "png"@,
    ensures
        format_of_param(v) == ImageFormat::Avif,
{
}

/// A query with no `format` pair resolves to AVIF.
pub proof fn lemma_absent_format_defaults(pairs: Seq<(Seq<char>, Seq<char>)>)
    requires
        spec_lookup(pairs, "format"@) is None,
    ensures
        spec_resolved_format(pairs) == ImageFormat::Avif,
{
}

/// Every `q` value that is not an unsigned 32-bit decimal numeral resolves
/// to exactly 90, and so does an absent parameter.
pub proof fn lemma_unparsable_quality_defaults(pairs: Seq<(Seq<char>, Seq<char>)>)
    requires
        match spec_lookup(pairs, "q"@) {
            Some(v) => !is_u32_decimal(encode_utf8(v)),
            None => true,
        },
    ensures
        spec_resolved_quality(pairs) == 90,
{
}

/// `jpg` and `jpeg` are synonyms: both resolve to the same format.
pub proof fn lemma_jpg_jpeg_synonyms()
    ensures
        format_of_param("jpg"@) == format_of_param("jpeg"@),
{
    reveal_strlit("avif");
    reveal_strlit("webp");
    reveal_strlit("jpg");
    reveal_strlit("jpeg");
    assert("jpg"@.len() == 3);
    assert("jpeg"@.len() == 4);
    assert("jpeg"@[0] == 'j' && "avif"@[0] == 'a' && "webp"@[0] == 'w');
    assert("jpeg"@ != "avif"@);
    assert("jpeg"@ != "webp"@);
}

} // verus!
