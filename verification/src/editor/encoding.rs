//! Character encodings: detection with `chardetng` and streaming decoding
//! into UTF-8 with `encoding_rs`.
//!
//! Encodings are carried through the library as opaque `&'static Encoding`
//! values. A decoder is opaque too; what it has read and written so far,
//! whether its stream has ended and which encoding it was made for are
//! named, and each call says how it changes them.

use chardetng::EncodingDetector;
use encoding_rs::{CoderResult, Decoder, Encoding};
use vstd::prelude::*;
use vstd::string::StringSliceAdditionalSpecFns;
use vstd::utf8::{decode_utf8, valid_utf8};

verus! {

/// Declares `encoding_rs::Encoding` to the verifier.
#[verifier::external_type_specification]
#[verifier::external_body]
pub struct ExEncoding(Encoding);

/// Declares `encoding_rs::Decoder` to the verifier.
#[verifier::external_type_specification]
#[verifier::external_body]
pub struct ExDecoder(Decoder);

/// Declares `chardetng::EncodingDetector` to the verifier.
#[verifier::external_type_specification]
#[verifier::external_body]
pub struct ExEncodingDetector(EncodingDetector);

/// The least free space, in bytes, that a decoder must be given to write
/// into: `encoding_rs` asks for at least four bytes of UTF-8 output space.
pub const MIN_DECODE_SPACE: usize = 4;

/// An amount of free output space, in bytes, that always holds the output
/// of at least one more input byte: a decoder that has this much room
/// either reads something or has exhausted its input.
pub const ROOMY_OUTPUT_SPACE: usize = 8192;

/// The text that `encoding_rs::Encoding::decode` gives for `bytes` taken
/// as one whole stream in `encoding`: a leading byte order mark is sniffed
/// and removed and decides the encoding, and malformed sequences become
/// U+FFFD.
pub uninterp spec fn decoded_text(encoding: &'static Encoding, bytes: Seq<u8>) -> Seq<char>;

/// What `encoding_rs::Encoding::for_label` returns for a label.
pub uninterp spec fn encoding_for_label(label: Seq<u8>) -> Option<&'static Encoding>;

/// The label `utf-8`, as bytes.
pub open spec fn utf8_label() -> Seq<u8> {
    seq![0x75u8, 0x74u8, 0x66u8, 0x2du8, 0x38u8]
}

/// The UTF-8 encoding: the one `encoding_rs` assigns to the label `utf-8`.
pub open spec fn utf8_encoding() -> &'static Encoding {
    encoding_for_label(utf8_label())->0
}

/// Returns the static `encoding_rs::UTF_8`. The `encoding_rs`
/// documentation shows that `Encoding::for_label(b"utf-8")` is
/// `Some(UTF_8)`; that is all the contract claims.
#[verifier::external_body]
pub(crate) fn utf_8() -> (encoding: &'static Encoding)
    ensures
        encoding_for_label(utf8_label()) == Some(encoding),
{
    encoding_rs::UTF_8
}

/// The bytes handed to an encoding detector so far, in order.
pub uninterp spec fn detector_input(detector: EncodingDetector) -> Seq<u8>;

/// Whether an encoding detector has been told that its stream has ended.
pub uninterp spec fn detector_closed(detector: EncodingDetector) -> bool;

/// What `chardetng::EncodingDetector::guess` returns, with no top-level
/// domain given, for a detector that was fed `input` (ended or not, as
/// `closed` says) and may or may not guess UTF-8, as `allow_utf8` says.
/// The `chardetng` documentation says that how the stream was split into
/// calls of `feed` does not matter.
pub uninterp spec fn guessed_encoding(input: Seq<u8>, closed: bool, allow_utf8: bool) -> &'static Encoding;

/// Calls `chardetng::EncodingDetector::new`: a detector that has seen no
/// input.
#[verifier::external_body]
pub(crate) fn detector_new() -> (detector: EncodingDetector)
    ensures
        detector_input(detector) == Seq::<u8>::empty(),
        !detector_closed(detector),
{
    EncodingDetector::new()
}

/// Calls `chardetng::EncodingDetector::feed`, which adds `buffer` to the
/// stream and ends the stream when `last` is set. It panics once the stream
/// has ended, which the precondition rules out. Whether non-ASCII was seen,
/// which `feed` also reports, is dropped.
#[verifier::external_body]
pub(crate) fn detector_feed(detector: &mut EncodingDetector, buffer: &[u8], last: bool)
    requires
        !detector_closed(*old(detector)),
    ensures
        detector_input(*final(detector)) == detector_input(*old(detector)) + buffer@,
        detector_closed(*final(detector)) == last,
{
    let _ = detector.feed(buffer, last);
}

/// Calls `chardetng::EncodingDetector::guess` with no top-level domain
/// (`None`, which never panics). The guess is named by `guessed_encoding`.
#[verifier::external_body]
pub(crate) fn detector_guess(detector: &EncodingDetector, allow_utf8: bool) -> (encoding: &'static Encoding)
    ensures
        encoding == guessed_encoding(detector_input(*detector), detector_closed(*detector), allow_utf8),
{
    detector.guess(None, allow_utf8)
}

/// Every byte a decoder has read so far, in order.
pub uninterp spec fn decoder_consumed(decoder: Decoder) -> Seq<u8>;

/// Every character a decoder has written so far, in order.
pub uninterp spec fn decoder_produced(decoder: Decoder) -> Seq<char>;

/// Whether a decoder's stream has ended: a call with `last` set has
/// exhausted its input.
pub uninterp spec fn decoder_finished(decoder: Decoder) -> bool;

/// The encoding a decoder was made for.
pub uninterp spec fn decoder_encoding(decoder: Decoder) -> &'static Encoding;

/// Calls `encoding_rs::Encoding::new_decoder`: a fresh decoder for
/// `encoding` that sniffs a byte order mark.
#[verifier::external_body]
pub(crate) fn decoder_new(encoding: &'static Encoding) -> (decoder: Decoder)
    ensures
        decoder_consumed(decoder) == Seq::<u8>::empty(),
        decoder_produced(decoder) == Seq::<char>::empty(),
        !decoder_finished(decoder),
        decoder_encoding(decoder) == encoding,
{
    encoding.new_decoder()
}

/// Calls `encoding_rs::Decoder::decode_to_utf8` on `src[start..end]`, into
/// `dst[offset..]`, with `last` as given. The result is whether the input
/// was exhausted (`CoderResult::InputEmpty`, else `OutputFull`), how many
/// bytes were read and how many were written.
///
/// Stated, as the `encoding_rs` documentation and source give it: the bytes
/// read are the first `read` bytes of the input, all of it when the input
/// was exhausted; only `dst[offset..]` is written, and what is written is
/// valid UTF-8 made of whole characters; the stream ends exactly when
/// `last` is set and the input was exhausted. A decoder stops early only
/// when it cannot be sure that the output of the next input byte fits, so
/// with `ROOMY_OUTPUT_SPACE` bytes free it reads something or exhausts its
/// input. Once the stream has ended, everything written is the decoding of
/// everything read as one whole stream (`decoded_text`): the streaming
/// decoder and `Encoding::decode` both implement the Encoding Standard's
/// decode with byte order mark sniffing, whatever the split into calls.
/// Using a finished decoder panics, and at least four bytes of output space
/// are required, which the precondition asks for. Which characters one
/// call writes before the end depends on the decoder's inner state and is
/// not stated.
#[verifier::external_body]
pub(crate) fn decoder_decode(
    decoder: &mut Decoder,
    src: &[u8],
    start: usize,
    end: usize,
    dst: &mut Vec<u8>,
    offset: usize,
    last: bool,
) -> (res: (bool, usize, usize))
    requires
        !decoder_finished(*old(decoder)),
        start <= end <= src@.len(),
        offset + MIN_DECODE_SPACE <= old(dst)@.len(),
    ensures
        res.1 <= end - start,
        res.2 <= old(dst)@.len() - offset,
        res.0 ==> res.1 == end - start,
        final(dst)@.len() == old(dst)@.len(),
        final(dst)@.subrange(0, offset as int) == old(dst)@.subrange(0, offset as int),
        valid_utf8(final(dst)@.subrange(offset as int, offset + res.2)),
        decoder_consumed(*final(decoder)) == decoder_consumed(*old(decoder)) + src@.subrange(
            start as int,
            start + res.1,
        ),
        decoder_produced(*final(decoder)) == decoder_produced(*old(decoder)) + decode_utf8(
            final(dst)@.subrange(offset as int, offset + res.2),
        ),
        decoder_finished(*final(decoder)) == (last && res.0),
        decoder_encoding(*final(decoder)) == decoder_encoding(*old(decoder)),
        old(dst)@.len() - offset >= ROOMY_OUTPUT_SPACE ==> res.0 || res.1 > 0,
        decoder_finished(*final(decoder)) ==> decoder_produced(*final(decoder)) == decoded_text(
            decoder_encoding(*final(decoder)),
            decoder_consumed(*final(decoder)),
        ),
{
    let (result, read, written, _) = decoder.decode_to_utf8(&src[start..end], &mut dst[offset..], last);
    match result {
        CoderResult::InputEmpty => (true, read, written),
        CoderResult::OutputFull => (false, read, written),
    }
}

/// Calls `std::str::from_utf8` on `bytes[start..end]`, which the
/// precondition makes valid UTF-8, so that the standard library returns
/// `Ok` with a string of exactly those bytes.
#[verifier::external_body]
pub(crate) fn utf8_str(bytes: &[u8], start: usize, end: usize) -> (text: &str)
    requires
        start <= end <= bytes@.len(),
        valid_utf8(bytes@.subrange(start as int, end as int)),
    ensures
        text.spec_bytes() == bytes@.subrange(start as int, end as int),
{
    match std::str::from_utf8(&bytes[start..end]) {
        Ok(text) => text,
        Err(_) => "",
    }
}

} // verus!
