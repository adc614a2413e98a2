//! Turning process output of unknown encoding into text.
//!
//! A process does not say how its output is encoded, so the encoding is
//! guessed from the bytes and the bytes are then decoded with the guess.
//! Decoding never fails: what cannot be decoded is replaced.

use vstd::prelude::*;

verus! {

#[verifier::external_type_specification]
#[verifier::external_body]
pub struct ExEncoding(encoding_rs::Encoding);

#[verifier::external_type_specification]
#[verifier::external_body]
pub struct ExEncodingDetector(chardetng::EncodingDetector);

/// The name of an encoding, as `encoding_rs::Encoding::name` gives it. Each
/// encoding has a name of its own.
pub uninterp spec fn encoding_label(encoding: encoding_rs::Encoding) -> Seq<char>;

/// Whether a detector was fed nothing yet.
pub uninterp spec fn detector_fresh(detector: chardetng::EncodingDetector) -> bool;

/// The bytes that a detector was fed, in the one buffer that it was handed.
pub uninterp spec fn detector_fed(detector: chardetng::EncodingDetector) -> Seq<u8>;

/// Whether a detector was told that its stream has ended.
pub uninterp spec fn detector_closed(detector: chardetng::EncodingDetector) -> bool;

/// The name of the encoding that `chardetng::EncodingDetector::guess` gives
/// when nothing is known of where the stream comes from: for a detector
/// that was handed `buffer` in one piece and nothing else, that was or was
/// not told that the stream ends there, and that may or may not guess
/// UTF-8.
pub uninterp spec fn guessed_label(buffer: Seq<u8>, last: bool, allow_utf8: bool) -> Seq<char>;

/// The text that `encoding_rs::Encoding::decode` gives for `bytes` when
/// called on the encoding named `label`.
pub uninterp spec fn decoded_text(label: Seq<char>, bytes: Seq<u8>) -> Seq<char>;

/// The text that `String::from_utf8_lossy` gives for `bytes`.
pub uninterp spec fn utf8_lossy_text(bytes: Seq<u8>) -> Seq<char>;

/// The longest input that is handed to a decoder. A decoder sizes its
/// output buffer at a little over three times the input and rounds that up
/// to a power of two, which has to fit in `usize`.
pub open spec fn decodable(bytes: Seq<u8>) -> bool {
    bytes.len() <= usize::MAX / 8
}

/// Whether some byte is outside ASCII.
pub open spec fn has_non_ascii(bytes: Seq<u8>) -> bool {
    exists|i: int| 0 <= i < bytes.len() && bytes[i] >= 0x80
}

/// A detector that was fed nothing yet. Wraps
/// `chardetng::EncodingDetector::new`.
#[verifier::external_body]
fn new_detector() -> (detector: chardetng::EncodingDetector)
    ensures
        detector_fresh(detector),
{
    chardetng::EncodingDetector::new()
}

/// Hands a fresh detector its bytes in one piece, and with `last` tells it
/// that the stream ends with them. Wraps
/// `chardetng::EncodingDetector::feed`, which says whether it has seen a
/// byte outside ASCII. A detector is fed once only: what it makes of a
/// stream that comes in several pieces is not stated here, and a call after
/// the end of the stream panics.
#[verifier::external_body]
fn feed(detector: &mut chardetng::EncodingDetector, buffer: &[u8], last: bool) -> (non_ascii: bool)
    requires
        detector_fresh(*old(detector)),
    ensures
        !detector_fresh(*final(detector)),
        detector_fed(*final(detector)) == buffer@,
        detector_closed(*final(detector)) == last,
        non_ascii == has_non_ascii(buffer@),
{
    detector.feed(buffer, last)
}

/// The encoding that a detector guesses from the one buffer that it was
/// handed. Wraps `chardetng::EncodingDetector::guess`, called without a
/// top-level domain: the guess then depends on that buffer, on whether the
/// stream ended with it, and on `allow_utf8` alone.
#[verifier::external_body]
fn guess(detector: &chardetng::EncodingDetector, allow_utf8: bool) -> (encoding:
    &'static encoding_rs::Encoding)
    requires
        !detector_fresh(*detector),
    ensures
        encoding_label(*encoding) == guessed_label(
            detector_fed(*detector),
            detector_closed(*detector),
            allow_utf8,
        ),
{
    detector.guess(None, allow_utf8)
}

/// Decodes `bytes` with `encoding_rs::Encoding::decode`: a byte order mark
/// at the start overrides `encoding` and is left out, and malformed input is
/// replaced by U+FFFD. The call panics when the size of its buffer
/// overflows, which `decodable` rules out.
#[verifier::external_body]
fn decode_with(encoding: &'static encoding_rs::Encoding, bytes: &[u8]) -> (text: String)
    requires
        decodable(bytes@),
    ensures
        text@ == decoded_text(encoding_label(*encoding), bytes@),
{
    encoding.decode(bytes).0.into_owned()
}

/// The encoding `encoding_rs::GBK`, whose name is "GBK".
#[verifier::external_body]
fn gbk() -> (encoding: &'static encoding_rs::Encoding)
    ensures
        encoding_label(*encoding) == "GBK"@,
{
    encoding_rs::GBK
}

/// Decodes `bytes` as UTF-8 with `String::from_utf8_lossy`, which replaces
/// each invalid sequence by U+FFFD.
#[verifier::external_body]
fn utf8_lossy(bytes: &[u8]) -> (text: String)
    ensures
        text@ == utf8_lossy_text(bytes@),
{
    String::from_utf8_lossy(bytes).into_owned()
}

/// The text that `bytes` decode to under the encoding guessed for them:
/// the guess is made on the bytes as one buffer that holds the whole stream,
/// with UTF-8 among the candidates.
pub open spec fn detected_text(bytes: Seq<u8>) -> Seq<char> {
    decoded_text(guessed_label(bytes, true, true), bytes)
}

/// Decodes bytes whose encoding nobody declared: guesses the most likely
/// encoding, UTF-8 among the candidates, and decodes with it.
pub fn decode_text(bytes: &[u8]) -> (text: String)
    requires
        decodable(bytes@),
    ensures
        text@ == detected_text(bytes@),
{
    let mut detector = new_detector();
    feed(&mut detector, bytes, true);
    let encoding = guess(&detector, true);
    decode_with(encoding, bytes)
}

/// Decodes bytes whose encoding nobody declared, whatever their number:
/// there is a text for every input that a decoder takes, and for no other.
pub fn try_decode_text(bytes: &[u8]) -> (text: Option<String>)
    ensures
        text is Some <==> decodable(bytes@),
        text matches Some(decoded) ==> decoded@ == detected_text(bytes@),
{
    if bytes.len() <= usize::MAX / 8 {
        Some(decode_text(bytes))
    } else {
        None
    }
}

/// Decodes bytes as GBK, the encoding that `cmd` writes its banner in.
pub fn decode_gbk(bytes: &[u8]) -> (text: String)
    requires
        decodable(bytes@),
    ensures
        text@ == decoded_text("GBK"@, bytes@),
{
    decode_with(gbk(), bytes)
}

/// Decodes bytes as UTF-8, with replacement of what is not.
pub fn decode_utf8(bytes: &[u8]) -> (text: String)
    ensures
        text@ == utf8_lossy_text(bytes@),
{
    utf8_lossy(bytes)
}

} // verus!
