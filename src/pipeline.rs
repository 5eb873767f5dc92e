//! Detection and decoding: a byte-order mark, else a prober's guess resolved
//! by policy, then decoding with a record of accuracy.
use crate::bom::{bom_charset, sniff_bom};
use crate::charset::{ascii_compatible, is_ascii_bytes, utf8_name, whatwg_decode, Charset};
use crate::decoder::{
    decode_text, decode_utf8_bytes, decoding, lemma_ascii_is_utf8, plain_input_kept, Accuracy,
};
use crate::prober::{
    feed_outcome, label_from_bytes, label_result, nsresult_kind, raw_label, ErrorKind, Prober,
    ProberHandle, ProberState,
};
use crate::resolver::{
    lemma_ascii_label, lemma_empty_label_gives_hint, lemma_iso2022_cn_kr_unsafe,
    lemma_utf16_ambiguous, resolution, resolve, same_label, Unresolved,
};
use std::borrow::Cow;
use vstd::prelude::*;
use vstd::string::*;
use vstd::utf8::*;

verus! {

/// Why no charset could be determined for some input.
#[derive(Debug, PartialEq, Eq)]
pub enum DetectionError {
    /// The prober failed, or broke its contract, while detecting.
    EngineFailure(ErrorKind),
    /// The prober's label could not be resolved to a safe charset.
    Unresolved(Unresolved),
}

/// A sentence that describes an error.
pub open spec fn detail_text(e: DetectionError) -> Seq<char> {
    match e {
        DetectionError::EngineFailure(ErrorKind::UnrecognizableCharset) => "could not guess encoding"@,
        DetectionError::EngineFailure(ErrorKind::OutOfMemory) => "charset prober ran out of memory"@,
        DetectionError::EngineFailure(ErrorKind::Other(_)) => "charset prober failed"@,
        DetectionError::EngineFailure(
            ErrorKind::ContractViolation,
        ) => "charset prober gave a charset name that is not UTF-8"@,
        DetectionError::Unresolved(Unresolved::Ambiguous) => "byte order of UTF-16 is unknown"@,
        DetectionError::Unresolved(Unresolved::Unsafe(s)) => "refused unsafe encoding "@ + s@,
        DetectionError::Unresolved(Unresolved::Unsupported(s)) => "no decoder for "@ + s@,
    }
}

impl DetectionError {
    /// A sentence that describes the error.
    pub fn detail(&self) -> (r: String)
        ensures
            r@ == detail_text(*self),
    {
        match self {
            DetectionError::EngineFailure(ErrorKind::UnrecognizableCharset) => String::from_str(
                "could not guess encoding",
            ),
            DetectionError::EngineFailure(ErrorKind::OutOfMemory) => String::from_str(
                "charset prober ran out of memory",
            ),
            DetectionError::EngineFailure(ErrorKind::Other(_)) => String::from_str(
                "charset prober failed",
            ),
            DetectionError::EngineFailure(ErrorKind::ContractViolation) => String::from_str(
                "charset prober gave a charset name that is not UTF-8",
            ),
            DetectionError::Unresolved(Unresolved::Ambiguous) => String::from_str(
                "byte order of UTF-16 is unknown",
            ),
            DetectionError::Unresolved(Unresolved::Unsafe(s)) => String::from_str(
                "refused unsafe encoding ",
            ).concat(s.as_str()),
            DetectionError::Unresolved(Unresolved::Unsupported(s)) => String::from_str(
                "no decoder for ",
            ).concat(s.as_str()),
        }
    }
}

/// The error of decoding, which fails only where detection does.
pub type DecodingError = DetectionError;

/// `r` is what resolving `label` with `hint` gives, as a detection result.
pub open spec fn resolved_as(label: Seq<char>, hint: Charset, r: Result<Charset, DetectionError>) -> bool {
    match r {
        Ok(c) => resolution(label, hint, Ok(c)),
        Err(DetectionError::Unresolved(u)) => resolution(label, hint, Err(u)),
        Err(DetectionError::EngineFailure(_)) => false,
    }
}

/// `r` is the detection result for `data` with `hint`, when feeding the
/// prober returned status `code` and the prober then named the charset with
/// the bytes `raw`. A byte-order mark decides before the prober is asked.
pub open spec fn detection(
    data: Seq<u8>,
    hint: Charset,
    code: i32,
    raw: Seq<u8>,
    r: Result<Charset, DetectionError>,
) -> bool {
    match bom_charset(data) {
        Some(name) => r matches Ok(c) && c@ == name,
        None => if code != 0 {
            r == Err::<Charset, DetectionError>(DetectionError::EngineFailure(nsresult_kind(code)))
        } else {
            match raw_label(raw) {
                Ok(label) => resolved_as(label, hint, r),
                Err(e) => r == Err::<Charset, DetectionError>(DetectionError::EngineFailure(e)),
            }
        },
    }
}

/// `r` is a detection result for `data` with `hint`, whatever the prober
/// returned.
pub open spec fn detects(data: Seq<u8>, hint: Charset, r: Result<Charset, DetectionError>) -> bool {
    exists|code: i32, raw: Seq<u8>| #[trigger] detection(data, hint, code, raw, r)
}

/// `r` decodes `data` in the charset of the detection result `d`, or fails
/// as `d` does.
pub open spec fn decoded_after<'a>(
    data: Seq<u8>,
    d: Result<Charset, DetectionError>,
    r: Result<(Cow<'a, str>, Accuracy), DetectionError>,
) -> bool {
    match d {
        Ok(c) => r matches Ok((text, accuracy)) && (text@, accuracy) == decoding(c@, data)
            && plain_input_kept(c@, data, text@, accuracy),
        Err(e) => r matches Err(f) && f == e,
    }
}

/// `r` is the UTF-8 bytes of decoding `data` in the charset of the detection
/// result `d`, or fails as `d` does.
pub open spec fn decoded_bytes_after<'a>(
    data: Seq<u8>,
    d: Result<Charset, DetectionError>,
    r: Result<(Cow<'a, [u8]>, Accuracy), DetectionError>,
) -> bool {
    match d {
        Ok(c) => r matches Ok((bytes, accuracy)) && bytes@ == encode_utf8(decoding(c@, data).0)
            && accuracy == decoding(c@, data).1,
        Err(e) => r matches Err(f) && f == e,
    }
}

/// What detection on `data` does with the prober: with a byte-order mark
/// the handle is left as it was; otherwise the prober, reset, is handed all of
/// `data` in one chunk.
pub open spec fn prober_use<P: Prober>(
    data: Seq<u8>,
    before: ProberHandle<P>,
    after: ProberHandle<P>,
) -> bool {
    if bom_charset(data) is Some {
        after == before
    } else {
        after.engine_fed() == seq![data]
    }
}

/// Detects the charset of `data`, with `hint` as the default.
///
/// A byte-order mark decides at once, and the prober is then never used.
/// Otherwise the prober of `handle` is reset, handed all of `data` in one
/// chunk, told that the input is complete and asked for its label, which is
/// resolved with `hint`. The handle stays with the caller, who releases it.
pub fn detect_encoding<P: Prober>(handle: &mut ProberHandle<P>, data: &[u8], hint: &Charset) -> (r:
    Result<Charset, DetectionError>)
    ensures
        detects(data@, *hint, r),
        prober_use(data@, *old(handle), *final(handle)),
{
    if let Some(c) = sniff_bom(data) {
        assert(detection(data@, *hint, 0, Seq::empty(), Ok(c)));
        return Ok(c);
    }
    handle.reset();
    let fed = handle.feed(data);
    if let Err(e) = fed {
        let ghost code = choose|code: i32| #[trigger] feed_outcome(code) == fed;
        let r = Err(DetectionError::EngineFailure(e));
        assert(detection(data@, *hint, code, Seq::empty(), r));
        return r;
    }
    handle.finalize();
    let label = handle.charset();
    let ghost raw = choose|raw: Seq<u8>| #[trigger] label_result(raw, label);
    let r = charset_for_label(label, hint);
    assert(detection(data@, *hint, 0, raw, r));
    r
}

/// Resolves the label that a prober gave, or passes on its failure.
fn charset_for_label(label: Result<String, ErrorKind>, hint: &Charset) -> (r: Result<
    Charset,
    DetectionError,
>)
    ensures
        match label {
            Ok(l) => resolved_as(l@, *hint, r),
            Err(e) => r == Err::<Charset, DetectionError>(DetectionError::EngineFailure(e)),
        },
{
    match label {
        Ok(name) => match resolve(name.as_str(), hint) {
            Ok(c) => Ok(c),
            Err(u) => Err(DetectionError::Unresolved(u)),
        },
        Err(e) => Err(DetectionError::EngineFailure(e)),
    }
}

/// The detection result for `data` with `hint`, when feeding the prober
/// returned status `code` and the prober then named the charset with the
/// bytes `raw`.
pub fn detection_outcome(data: &[u8], hint: &Charset, code: i32, raw: &[u8]) -> (r: Result<
    Charset,
    DetectionError,
>)
    ensures
        detection(data@, *hint, code, raw@, r),
{
    if let Some(c) = sniff_bom(data) {
        Ok(c)
    } else if code != 0 {
        Err(DetectionError::EngineFailure(ErrorKind::from_nsresult(code)))
    } else {
        charset_for_label(label_from_bytes(raw), hint)
    }
}

/// Detects the charset of `data` as `detect_encoding` does, then decodes
/// `data` in it.
pub fn decode<'a, P: Prober>(handle: &mut ProberHandle<P>, data: &'a [u8], hint: &Charset) -> (r: Result<
    (Cow<'a, str>, Accuracy),
    DetectionError,
>)
    ensures
        exists|d: Result<Charset, DetectionError>| #[trigger] detects(data@, *hint, d)
            && decoded_after(data@, d, r),
        prober_use(data@, *old(handle), *final(handle)),
{
    let d = detect_encoding(handle, data, hint);
    let ghost detected = d;
    let r = match d {
        Ok(c) => Ok(decode_text(data, &c)),
        Err(e) => Err(e),
    };
    assert(detects(data@, *hint, detected) && decoded_after(data@, detected, r));
    r
}

/// Detects the charset of `data` as `detect_encoding` does, then decodes
/// `data` in it to UTF-8 bytes.
pub fn decode_as_utf8_bytes<'a, P: Prober>(handle: &mut ProberHandle<P>, data: &'a [u8], hint: &Charset) -> (r: Result<
    (Cow<'a, [u8]>, Accuracy),
    DetectionError,
>)
    ensures
        exists|d: Result<Charset, DetectionError>| #[trigger] detects(data@, *hint, d)
            && decoded_bytes_after(data@, d, r),
        prober_use(data@, *old(handle), *final(handle)),
{
    let d = detect_encoding(handle, data, hint);
    let ghost detected = d;
    let r = match d {
        Ok(c) => Ok(decode_utf8_bytes(data, &c)),
        Err(e) => Err(e),
    };
    assert(detects(data@, *hint, detected) && decoded_bytes_after(data@, detected, r));
    r
}

/// With a byte-order mark at the start of the input, detection gives the
/// charset that the mark announces, whatever follows it and whatever the
/// prober would have said.
pub proof fn lemma_bom_decides(data: Seq<u8>, hint: Charset, r: Result<Charset, DetectionError>)
    requires
        bom_charset(data) is Some,
        detects(data, hint, r),
    ensures
        r matches Ok(c) && bom_charset(data) == Some(c@),
{
}

/// Well-formed UTF-8 input decoded in UTF-8, or ASCII input decoded in any
/// ASCII-compatible charset, is lossless, and its text is exactly what UTF-8
/// validation of the input gives.
pub proof fn lemma_valid_utf8_lossless<'a>(
    data: Seq<u8>,
    charset: Charset,
    r: Result<(Cow<'a, str>, Accuracy), DetectionError>,
)
    requires
        valid_utf8(data),
        charset@ == utf8_name() || (ascii_compatible(charset@) && is_ascii_bytes(data)),
        decoded_after(data, Ok(charset), r),
    ensures
        r matches Ok((text, accuracy)) && accuracy == Accuracy::Lossless && text@ == decode_utf8(
            data,
        ),
{
    if is_ascii_bytes(data) {
        lemma_ascii_is_utf8(data);
    }
}

/// Without a byte-order mark, when the prober finishes and names its charset
/// with bytes that spell `label`, detection resolves `label` with the hint.
pub proof fn lemma_detection_resolves_label(
    data: Seq<u8>,
    hint: Charset,
    raw: Seq<u8>,
    label: Seq<char>,
    r: Result<Charset, DetectionError>,
)
    requires
        bom_charset(data) is None,
        raw_label(raw) == Ok::<Seq<char>, ErrorKind>(label),
        detection(data, hint, 0, raw, r),
    ensures
        resolved_as(label, hint, r),
{
}

/// The resolution result that a detection result came from, where it came
/// from resolving a label; detection results that carry an engine failure
/// come from no resolution and map to an arbitrary one.
spec fn as_resolution(r: Result<Charset, DetectionError>) -> Result<Charset, Unresolved> {
    match r {
        Ok(c) => Ok(c),
        Err(DetectionError::Unresolved(u)) => Err(u),
        Err(DetectionError::EngineFailure(_)) => Err(Unresolved::Ambiguous),
    }
}

/// Without a byte-order mark, an empty label from the prober gives the hint,
/// whatever the hint.
pub proof fn lemma_detected_empty_label_gives_hint(
    data: Seq<u8>,
    hint: Charset,
    r: Result<Charset, DetectionError>,
)
    requires
        bom_charset(data) is None,
        detection(data, hint, 0, Seq::empty(), r),
    ensures
        r == Ok::<Charset, DetectionError>(hint),
{
    lemma_ascii_is_utf8(Seq::empty());
    assert(decode_utf8(Seq::empty()) =~= Seq::<char>::empty());
    lemma_empty_label_gives_hint(hint, as_resolution(r));
}

/// Without a byte-order mark, a prober's "ASCII", in any case, gives the hint
/// when the hint is ASCII-compatible, and otherwise what the label table
/// gives for it.
pub proof fn lemma_detected_ascii_label(
    data: Seq<u8>,
    hint: Charset,
    raw: Seq<u8>,
    label: Seq<char>,
    r: Result<Charset, DetectionError>,
)
    requires
        bom_charset(data) is None,
        raw_label(raw) == Ok::<Seq<char>, ErrorKind>(label),
        same_label(label, "ASCII"@),
        detection(data, hint, 0, raw, r),
    ensures
        ascii_compatible(hint@) ==> r == Ok::<Charset, DetectionError>(hint),
        !ascii_compatible(hint@) ==> match crate::charset::label_encoding_name(label) {
            Some(name) => r matches Ok(c) && c@ == name,
            None => r matches Err(DetectionError::Unresolved(Unresolved::Unsupported(s))) && s@
                == label,
        },
{
    lemma_ascii_label(label, hint, as_resolution(r));
}

/// Without a byte-order mark, a prober's "ISO-2022-CN" or "ISO-2022-KR" is
/// refused as unsafe, whatever the hint.
pub proof fn lemma_detected_iso2022_cn_kr_unsafe(
    data: Seq<u8>,
    hint: Charset,
    raw: Seq<u8>,
    label: Seq<char>,
    r: Result<Charset, DetectionError>,
)
    requires
        bom_charset(data) is None,
        raw_label(raw) == Ok::<Seq<char>, ErrorKind>(label),
        label == "ISO-2022-CN"@ || label == "ISO-2022-KR"@,
        detection(data, hint, 0, raw, r),
    ensures
        r matches Err(DetectionError::Unresolved(Unresolved::Unsafe(s))) && s@ == label,
{
    lemma_iso2022_cn_kr_unsafe(label, hint, as_resolution(r));
}

/// Without a byte-order mark, a prober's "UTF-16" is ambiguous, whatever the
/// hint.
pub proof fn lemma_detected_utf16_ambiguous(
    data: Seq<u8>,
    hint: Charset,
    raw: Seq<u8>,
    r: Result<Charset, DetectionError>,
)
    requires
        bom_charset(data) is None,
        raw_label(raw) == Ok::<Seq<char>, ErrorKind>("UTF-16"@),
        detection(data, hint, 0, raw, r),
    ensures
        r == Err::<Charset, DetectionError>(DetectionError::Unresolved(Unresolved::Ambiguous)),
{
    lemma_utf16_ambiguous(hint, as_resolution(r));
}

/// Empty input has no byte-order mark; when the prober then gives the empty
/// label, detection gives the hint and decoding gives empty text without
/// loss.
pub proof fn lemma_empty_input<'a>(
    hint: Charset,
    d: Result<Charset, DetectionError>,
    r: Result<(Cow<'a, str>, Accuracy), DetectionError>,
)
    requires
        detection(Seq::empty(), hint, 0, Seq::empty(), d),
        decoded_after(Seq::empty(), d, r),
    ensures
        bom_charset(Seq::empty()) is None,
        d == Ok::<Charset, DetectionError>(hint),
        r matches Ok((text, accuracy)) && text@.len() == 0 && accuracy == Accuracy::Lossless,
{
    lemma_detected_empty_label_gives_hint(Seq::empty(), hint, d);
}

/// Input decoded in a charset other than UTF-8, whose decoding routine
/// replaces nothing, is lossless, even when the bytes are not UTF-8.
pub proof fn lemma_other_charset_lossless<'a>(
    data: Seq<u8>,
    charset: Charset,
    r: Result<(Cow<'a, str>, Accuracy), DetectionError>,
)
    requires
        charset@ != utf8_name(),
        !whatwg_decode(charset@, data).1,
        decoded_after(data, Ok(charset), r),
    ensures
        r matches Ok((text, accuracy)) && accuracy == Accuracy::Lossless && text@ == whatwg_decode(
            charset@,
            data,
        ).0,
{
}

/// Input that starts with a UTF-8 byte-order mark and is well-formed UTF-8
/// decodes losslessly to exactly its UTF-8 text, whatever the prober says.
pub proof fn lemma_utf8_bom_input_lossless<'a>(
    data: Seq<u8>,
    hint: Charset,
    r: Result<(Cow<'a, str>, Accuracy), DetectionError>,
)
    requires
        valid_utf8(data),
        bom_charset(data) == Some(utf8_name()),
        exists|d: Result<Charset, DetectionError>| #[trigger] detects(data, hint, d)
            && decoded_after(data, d, r),
    ensures
        r matches Ok((text, accuracy)) && accuracy == Accuracy::Lossless && text@ == decode_utf8(
            data,
        ),
{
    let d = choose|d: Result<Charset, DetectionError>| #[trigger] detects(data, hint, d)
        && decoded_after(data, d, r);
    lemma_bom_decides(data, hint, d);
}

/// A detector that asks a statistical prober when there is no byte-order
/// mark.
pub struct UChardetDetector<P: Prober> {
    handle: ProberHandle<P>,
}

impl<P: Prober> UChardetDetector<P> {
    /// The handle of this detector's prober.
    pub closed spec fn prober(&self) -> ProberHandle<P> {
        self.handle
    }

    /// A detector that will use `engine`.
    pub fn new(engine: P) -> (r: UChardetDetector<P>)
        ensures
            r.prober().phase() == ProberState::Created,
            r.prober().engine_fed() == Seq::<Seq<u8>>::empty(),
    {
        UChardetDetector { handle: ProberHandle::new(engine) }
    }

    /// Detects the charset of `data` with this detector's prober, as the free
    /// function `detect_encoding` does.
    pub fn detect_encoding(&mut self, data: &[u8], hint: &Charset) -> (r: Result<
        Charset,
        DetectionError,
    >)
        ensures
            detects(data@, *hint, r),
            prober_use(data@, old(self).prober(), final(self).prober()),
    {
        detect_encoding(&mut self.handle, data, hint)
    }

    /// Detects and decodes `data` with this detector's prober, as the free
    /// function `decode` does.
    pub fn decode<'a>(&mut self, data: &'a [u8], hint: &Charset) -> (r: Result<
        (Cow<'a, str>, Accuracy),
        DetectionError,
    >)
        ensures
            exists|d: Result<Charset, DetectionError>| #[trigger] detects(data@, *hint, d)
                && decoded_after(data@, d, r),
            prober_use(data@, old(self).prober(), final(self).prober()),
    {
        decode(&mut self.handle, data, hint)
    }

    /// Detects and decodes `data` to UTF-8 bytes with this detector's prober,
    /// as the free function `decode_as_utf8_bytes` does.
    pub fn decode_as_utf8_bytes<'a>(&mut self, data: &'a [u8], hint: &Charset) -> (r: Result<
        (Cow<'a, [u8]>, Accuracy),
        DetectionError,
    >)
        ensures
            exists|d: Result<Charset, DetectionError>| #[trigger] detects(data@, *hint, d)
                && decoded_bytes_after(data@, d, r),
            prober_use(data@, old(self).prober(), final(self).prober()),
    {
        decode_as_utf8_bytes(&mut self.handle, data, hint)
    }
}

} // verus!
