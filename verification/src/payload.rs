use crate::error::{StoreError, StoreErrorView};
use vstd::prelude::*;
use vstd::string::*;

verus! {

/// The marker that a front end puts before the base64 text of a PNG image.
pub const PNG_MARKER: &'static str = "data:image/png;base64,";

/// The marker that a front end puts before the base64 text of a JPEG image.
pub const JPEG_MARKER: &'static str = "data:image/jpeg;base64,";

/// The characters of [`PNG_MARKER`].
pub open spec fn png_marker() -> Seq<char> {
    PNG_MARKER@
}

/// The characters of [`JPEG_MARKER`].
pub open spec fn jpeg_marker() -> Seq<char> {
    JPEG_MARKER@
}

/// `text` begins with `marker`, and `marker` is not empty.
pub open spec fn begins_with(text: Seq<char>, marker: Seq<char>) -> bool {
    marker.len() > 0 && marker.is_prefix_of(text)
}

/// The text that is left for the decoder: `text` without the markers at its
/// front.
///
/// Only the two known markers count, and only at the front. Several in a row
/// all go. A marker further inside stays where it is, as does any other
/// `data:` prefix: the decoder will refuse such a text.
pub open spec fn payload_text(text: Seq<char>) -> Seq<char>
    decreases text.len(),
{
    if begins_with(text, png_marker()) {
        payload_text(text.skip(png_marker().len() as int))
    } else if begins_with(text, jpeg_marker()) {
        payload_text(text.skip(jpeg_marker().len() as int))
    } else {
        text
    }
}

/// Whether `marker` stands in `text` at position `start`.
fn marker_at(text: &str, start: usize, total: usize, marker: &str) -> (found: bool)
    requires
        start <= total,
        total == text@.len(),
    ensures
        found == begins_with(text@.skip(start as int), marker@),
{
    let width = marker.unicode_len();
    if width == 0 || width > total - start {
        return false;
    }
    let ghost rest = text@.skip(start as int);
    let mut i: usize = 0;
    while i < width
        invariant
            i <= width,
            width == marker@.len(),
            width <= total - start,
            total == text@.len(),
            rest == text@.skip(start as int),
            forall|j: int| 0 <= j < i ==> rest[j] == marker@[j],
        decreases width - i,
    {
        if text.get_char(start + i) != marker.get_char(i) {
            assert(rest.subrange(0, width as int)[i as int] != marker@[i as int]);
            return false;
        }
        i += 1;
    }
    assert(marker@ =~= rest.subrange(0, width as int));
    true
}

/// Drops the known markers from the front of `text`.
pub fn strip_markers(text: &str) -> (payload: &str)
    ensures
        payload@ == payload_text(text@),
{
    let png = PNG_MARKER;
    let jpeg = JPEG_MARKER;
    let total = text.unicode_len();
    let mut start: usize = 0;
    assert(text@.skip(0) =~= text@);
    loop
        invariant
            start <= total,
            total == text@.len(),
            png@ == png_marker(),
            jpeg@ == jpeg_marker(),
            payload_text(text@) == payload_text(text@.skip(start as int)),
        ensures
            start <= total,
            payload_text(text@) == text@.skip(start as int),
        decreases total - start,
    {
        let ghost rest = text@.skip(start as int);
        let width = if marker_at(text, start, total, png) {
            png.unicode_len()
        } else if marker_at(text, start, total, jpeg) {
            jpeg.unicode_len()
        } else {
            break ;
        };
        assert(rest.skip(width as int) =~= text@.skip(start + width));
        start += width;
    }
    assert(text@.skip(start as int) =~= text@.subrange(start as int, total as int));
    text.substring_char(start, total)
}

/// What the standard base64 decoder makes of `text`: the bytes it stands
/// for, or the decoder's own words on why it is no base64.
///
/// The decoder reads the standard alphabet, wants canonical `=` padding and
/// takes neither white space nor line breaks.
pub uninterp spec fn base64_decoding(text: Seq<char>) -> Result<Seq<u8>, Seq<char>>;

/// Calls `base64::decode`, the decoder of the `base64` crate with its
/// standard engine.
///
/// Trusted: the result is the crate's, bytes for bytes, and on refusal the
/// text that the crate's `DecodeError` displays. The decoder looks at
/// nothing but its argument, so the same text always gives the same result;
/// `base64_decoding` is the name of that result.
#[verifier::external_body]
#[allow(deprecated)]
fn decode_base64(text: &str) -> (decoded: Result<Vec<u8>, String>)
    ensures
        raw_view(decoded) == base64_decoding(text@),
{
    match base64::decode(text) {
        Ok(bytes) => Ok(bytes),
        Err(refusal) => Err(refusal.to_string()),
    }
}

/// What a decoder's result means to the store: bytes stay bytes, a refusal
/// becomes a `Decode` error with the decoder's words as its cause.
pub open spec fn decode_outcome_of(raw: Result<Seq<u8>, Seq<char>>) -> Result<
    Seq<u8>,
    StoreErrorView,
> {
    match raw {
        Ok(bytes) => Ok(bytes),
        Err(cause) => Err(StoreErrorView::Decode { cause }),
    }
}

/// The image that `text` holds: its payload, decoded.
pub open spec fn decoded_image(text: Seq<char>) -> Result<Seq<u8>, StoreErrorView> {
    decode_outcome_of(base64_decoding(payload_text(text)))
}

/// The mathematical value of a decoder's result.
pub open spec fn raw_view(raw: Result<Vec<u8>, String>) -> Result<Seq<u8>, Seq<char>> {
    match raw {
        Ok(bytes) => Ok(bytes@),
        Err(cause) => Err(cause@),
    }
}

/// The mathematical value of a decoding by the store.
pub open spec fn outcome_view(outcome: Result<Vec<u8>, StoreError>) -> Result<
    Seq<u8>,
    StoreErrorView,
> {
    match outcome {
        Ok(bytes) => Ok(bytes@),
        Err(error) => Err(error@),
    }
}

/// Turns a decoder's result into the store's.
pub fn decode_outcome(raw: Result<Vec<u8>, String>) -> (outcome: Result<Vec<u8>, StoreError>)
    ensures
        outcome_view(outcome) == decode_outcome_of(raw_view(raw)),
{
    match raw {
        Ok(bytes) => Ok(bytes),
        Err(cause) => Err(StoreError::Decode { cause }),
    }
}

/// Decodes the image in `text`: drops the markers at its front and hands
/// the rest to the base64 decoder.
pub fn decode_image_data(text: &str) -> (outcome: Result<Vec<u8>, StoreError>)
    ensures
        outcome_view(outcome) == decoded_image(text@),
{
    decode_outcome(decode_base64(strip_markers(text)))
}

/// A known marker in front of a text changes nothing of its payload, so
/// nothing of the image decoded from it.
pub proof fn lemma_marker_is_dropped(text: Seq<char>)
    ensures
        payload_text(png_marker() + text) == payload_text(text),
        payload_text(jpeg_marker() + text) == payload_text(text),
        decoded_image(png_marker() + text) == decoded_image(text),
        decoded_image(jpeg_marker() + text) == decoded_image(text),
{
    reveal_strlit("data:image/png;base64,");
    reveal_strlit("data:image/jpeg;base64,");
    let png = png_marker();
    let jpeg = jpeg_marker();
    assert((png + text).subrange(0, png.len() as int) =~= png);
    assert((png + text).skip(png.len() as int) =~= text);
    assert(begins_with(png + text, png));
    assert((jpeg + text).subrange(0, jpeg.len() as int) =~= jpeg);
    assert((jpeg + text).skip(jpeg.len() as int) =~= text);
    assert(!begins_with(jpeg + text, png)) by {
        if begins_with(jpeg + text, png) {
            assert((jpeg + text).subrange(0, png.len() as int)[11] == png[11]);
        }
    }
    assert(begins_with(jpeg + text, jpeg));
}

/// A text without a known marker at its front is its own payload.
pub proof fn lemma_bare_text_is_payload(text: Seq<char>)
    requires
        !begins_with(text, png_marker()),
        !begins_with(text, jpeg_marker()),
    ensures
        payload_text(text) == text,
        decoded_image(text) == decode_outcome_of(base64_decoding(text)),
{
}

/// A payload never begins with a known marker: nothing is left to drop.
pub proof fn lemma_payload_is_bare(text: Seq<char>)
    ensures
        !begins_with(payload_text(text), png_marker()),
        !begins_with(payload_text(text), jpeg_marker()),
        payload_text(payload_text(text)) == payload_text(text),
    decreases text.len(),
{
    if begins_with(text, png_marker()) {
        lemma_payload_is_bare(text.skip(png_marker().len() as int));
    } else if begins_with(text, jpeg_marker()) {
        lemma_payload_is_bare(text.skip(jpeg_marker().len() as int));
    }
}

} // verus!
