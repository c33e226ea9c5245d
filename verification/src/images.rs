//! Image helpers: data-URI splitting and base64 encoding.

use vstd::prelude::*;
use vstd::string::StrSliceExecFns;

use crate::error::AdapterError;
use crate::strutil::{contains_sub, spec_contains, spec_starts_with, starts_with_sub};

verus! {

/// How many commas the sequence holds.
pub open spec fn spec_comma_count(s: Seq<char>) -> int
    decreases s.len(),
{
    if s.len() == 0 {
        0
    } else {
        spec_comma_count(s.drop_last()) + if s.last() == ',' {
            1int
        } else {
            0int
        }
    }
}

/// The index of the first comma, or the length if there is none.
pub open spec fn spec_first_comma(s: Seq<char>) -> int
    decreases s.len(),
{
    if s.len() == 0 {
        0
    } else if s[0] == ',' {
        0
    } else {
        1 + spec_first_comma(s.drop_first())
    }
}

/// The first-comma index is the least comma position, or the length.
proof fn lemma_first_comma(s: Seq<char>)
    ensures
        0 <= spec_first_comma(s) <= s.len(),
        forall|k: int| 0 <= k < spec_first_comma(s) ==> s[k] != ',',
        spec_first_comma(s) < s.len() ==> s[spec_first_comma(s)] == ',',
    decreases s.len(),
{
    if s.len() > 0 && s[0] != ',' {
        lemma_first_comma(s.drop_first());
        assert(forall|k: int|
            1 <= k < spec_first_comma(s) ==> s[k] == s.drop_first()[k - 1] && s[k] != ',');
    }
}

/// The media type that the metadata half of a data URI names: fixed
/// substring checks, with `image/jpeg` as the fallback.
pub open spec fn spec_media_type(metadata: Seq<char>) -> Seq<char> {
    if spec_contains(metadata, "image/png"@) {
        "image/png"@
    } else if spec_contains(metadata, "image/jpeg"@) || spec_contains(metadata, "image/jpg"@) {
        "image/jpeg"@
    } else if spec_contains(metadata, "image/gif"@) {
        "image/gif"@
    } else if spec_contains(metadata, "image/webp"@) {
        "image/webp"@
    } else {
        "image/jpeg"@
    }
}

/// Splits a `data:` URI into its media type and its base64 payload.
/// Succeeds exactly on a string that starts with `data:` and holds
/// exactly one comma; everything else is a configuration error.
#[verifier::loop_isolation(false)]
pub fn process_image_url_anthropic(url: &str) -> (r: Result<(String, String), AdapterError>)
    ensures
        r is Ok <==> (spec_starts_with(url@, "data:"@) && spec_comma_count(url@) == 1),
        r matches Ok(p) ==> p.0@ == spec_media_type(url@.take(spec_first_comma(url@))) && p.1@
            == url@.skip(spec_first_comma(url@) + 1),
        r matches Err(e) ==> e is ConfigError,
{
    if !starts_with_sub(url, "data:") {
        return Err(AdapterError::ConfigError("Only data URIs are supported for Anthropic".to_owned()));
    }
    let len = url.unicode_len();
    let mut count: usize = 0;
    let mut first: usize = len;
    let mut i: usize = 0;
    proof {
        assert(url@.take(0) =~= Seq::<char>::empty());
    }
    while i < len
        invariant
            i <= len,
            len == url@.len(),
            count <= i,
            count == spec_comma_count(url@.take(i as int)),
            first <= len,
            count == 0 ==> first == len,
            count > 0 ==> first < i && url@[first as int] == ',',
            forall|k: int| 0 <= k < i && k < first ==> url@[k] != ',',
        decreases len - i,
    {
        proof {
            assert(url@.take(i + 1).drop_last() =~= url@.take(i as int));
            assert(url@.take(i + 1).last() == url@[i as int]);
        }
        if url.get_char(i) == ',' {
            if count == 0 {
                first = i;
            }
            count += 1;
        }
        i += 1;
    }
    proof {
        assert(url@.take(len as int) =~= url@);
    }
    if count != 1 {
        return Err(AdapterError::ConfigError("Invalid data URI format".to_owned()));
    }
    proof {
        lemma_first_comma(url@);
        if spec_first_comma(url@) < first {
            assert(url@[spec_first_comma(url@)] == ',');
            assert(false);
        }
        if first < spec_first_comma(url@) {
            assert(false);
        }
        assert(first == spec_first_comma(url@));
    }
    let metadata = url.substring_char(0, first);
    let base64_data = url.substring_char(first + 1, len);
    proof {
        assert(metadata@ =~= url@.take(first as int));
        assert(base64_data@ =~= url@.skip(first + 1));
    }
    let media_type: &str = if contains_sub(metadata, "image/png") {
        "image/png"
    } else if contains_sub(metadata, "image/jpeg") || contains_sub(metadata, "image/jpg") {
        "image/jpeg"
    } else if contains_sub(metadata, "image/gif") {
        "image/gif"
    } else if contains_sub(metadata, "image/webp") {
        "image/webp"
    } else {
        "image/jpeg"
    };
    Ok((media_type.to_owned(), base64_data.to_owned()))
}

/// What the standard base64 encoding of a byte sequence reads: four
/// characters for every three bytes, padded. A pure function of the
/// bytes alone.
pub uninterp spec fn base64_of(bytes: Seq<u8>) -> Seq<char>;

/// Relies on `base64::engine::general_purpose::STANDARD` and
/// `base64::Engine::encode`: standard-alphabet, padded base64 of the
/// input bytes, 4 characters per 3-byte group. The length bound keeps
/// the engine's output-size computation from overflowing.
#[verifier::external_body]
pub fn encode_image_to_base64(image_bytes: &[u8]) -> (r: String)
    requires
        image_bytes@.len() <= usize::MAX / 4,
    ensures
        r@ == base64_of(image_bytes@),
        r@.len() == 4 * ((image_bytes@.len() + 2) / 3),
{
    base64::Engine::encode(&base64::engine::general_purpose::STANDARD, image_bytes)
}

} // verus!
