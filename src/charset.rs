//! A concrete, decodable character encoding, backed by `encoding_rs`.
use std::borrow::Cow;
use vstd::prelude::*;
use vstd::utf8::*;

verus! {

/// `encoding_rs::Encoding`, one of the crate's static encoding descriptors,
/// carried through as an opaque value.
#[verifier::external_type_specification]
#[verifier::external_body]
pub struct ExEncoding(encoding_rs::Encoding);

/// The canonical name of UTF-8 in the Encoding Standard.
pub open spec fn utf8_name() -> Seq<char> {
    seq!['U', 'T', 'F', '-', '8']
}

/// The canonical name of UTF-16LE.
pub open spec fn utf16le_name() -> Seq<char> {
    seq!['U', 'T', 'F', '-', '1', '6', 'L', 'E']
}

/// The canonical name of UTF-16BE.
pub open spec fn utf16be_name() -> Seq<char> {
    seq!['U', 'T', 'F', '-', '1', '6', 'B', 'E']
}

/// The canonical name of ISO-2022-JP.
pub open spec fn iso2022jp_name() -> Seq<char> {
    seq!['I', 'S', 'O', '-', '2', '0', '2', '2', '-', 'J', 'P']
}

/// The canonical name of the replacement encoding, which decodes any input
/// to a single replacement character.
pub open spec fn replacement_name() -> Seq<char> {
    seq!['r', 'e', 'p', 'l', 'a', 'c', 'e', 'm', 'e', 'n', 't']
}

/// Whether the encoding with this canonical name maps the bytes 0x00..=0x7F
/// exactly to U+0000..=U+007F.
pub open spec fn ascii_compatible(name: Seq<char>) -> bool {
    !(name == replacement_name() || name == utf16be_name() || name == utf16le_name()
        || name == iso2022jp_name())
}

/// Canonical name of the encoding that a label denotes under the Encoding
/// Standard's label table, unless there is none or it is the replacement
/// encoding.
pub uninterp spec fn label_encoding_name(label: Seq<char>) -> Option<Seq<char>>;

/// What decoding `bytes` in the encoding with this canonical name yields,
/// with byte-order-mark sniffing: the text, and whether any malformed sequence
/// was replaced.
pub uninterp spec fn whatwg_decode(name: Seq<char>, bytes: Seq<u8>) -> (Seq<char>, bool);

/// The text that lossy UTF-8 conversion makes of `bytes`, each malformed
/// sequence replaced by U+FFFD.
pub uninterp spec fn utf8_lossy(bytes: Seq<u8>) -> Seq<char>;

/// Bytes that are all in the ASCII range.
pub open spec fn is_ascii_bytes(bytes: Seq<u8>) -> bool {
    forall|i: int| 0 <= i < bytes.len() ==> #[trigger] bytes[i] < 0x80
}

/// The characters that ASCII bytes stand for.
pub open spec fn ascii_text(bytes: Seq<u8>) -> Seq<char> {
    Seq::new(bytes.len(), |i: int| bytes[i] as char)
}

/// The encoding that a byte-order mark at the start of `bytes` announces,
/// with the length of the mark.
pub open spec fn bom_encoding(bytes: Seq<u8>) -> Option<(Seq<char>, nat)> {
    if bytes.len() >= 3 && bytes[0] == 0xEF && bytes[1] == 0xBB && bytes[2] == 0xBF {
        Some((utf8_name(), 3))
    } else if bytes.len() >= 2 && bytes[0] == 0xFF && bytes[1] == 0xFE {
        Some((utf16le_name(), 2))
    } else if bytes.len() >= 2 && bytes[0] == 0xFE && bytes[1] == 0xFF {
        Some((utf16be_name(), 2))
    } else {
        None
    }
}

/// A character encoding that can decode bytes, viewed as its canonical name.
///
/// Values are only built from an `encoding_rs::Encoding`, and `name` is always
/// that encoding's name, so two values with one name decode alike.
#[derive(Clone, Copy, Debug, PartialEq, Eq)]
pub struct Charset {
    enc: &'static encoding_rs::Encoding,
    name: &'static str,
}

impl View for Charset {
    type V = Seq<char>;

    closed spec fn view(&self) -> Seq<char> {
        self.name@
    }
}

/// Relies on `encoding_rs::Encoding::name`: an encoding is named by its
/// `name` field.
#[verifier::external_body]
fn charset_of(enc: &'static encoding_rs::Encoding) -> (r: Charset)
    ensures
        r.enc == enc,
{
    Charset { enc, name: enc.name() }
}

/// Relies on `encoding_rs::Encoding::for_label_no_replacement`: the encoding
/// that the label table gives, with the replacement encoding left out.
#[verifier::external_body]
fn lookup_label(label: &str) -> (r: Option<Charset>)
    ensures
        r matches Some(c) ==> label_encoding_name(label@) == Some(c@),
        r is None ==> label_encoding_name(label@) is None,
        r matches Some(c) ==> c@ != replacement_name(),
{
    match encoding_rs::Encoding::for_label_no_replacement(label.as_bytes()) {
        Some(e) => Some(Charset { enc: e, name: e.name() }),
        None => None,
    }
}

/// Relies on `encoding_rs::UTF_8`, whose name is "UTF-8".
#[verifier::external_body]
fn utf8_charset() -> (r: Charset)
    ensures
        r@ == utf8_name(),
{
    Charset { enc: encoding_rs::UTF_8, name: encoding_rs::UTF_8.name() }
}

/// Relies on `encoding_rs::Encoding::for_bom`: UTF-8, UTF-16LE or UTF-16BE
/// with the length of its mark, or nothing.
#[verifier::external_body]
pub(crate) fn charset_for_bom(bytes: &[u8]) -> (r: Option<(Charset, usize)>)
    ensures
        r matches Some((c, n)) ==> bom_encoding(bytes@) == Some((c@, n as nat)),
        r is None ==> bom_encoding(bytes@) is None,
{
    match encoding_rs::Encoding::for_bom(bytes) {
        Some((e, n)) => Some((Charset { enc: e, name: e.name() }, n)),
        None => None,
    }
}

/// Relies on `std::str::from_utf8`: the text when `bytes` is well-formed
/// UTF-8, nothing otherwise.
#[verifier::external_body]
pub(crate) fn utf8_text<'a>(bytes: &'a [u8]) -> (r: Option<&'a str>)
    ensures
        r is Some <==> valid_utf8(bytes@),
        r matches Some(s) ==> s@ == decode_utf8(bytes@),
{
    std::str::from_utf8(bytes).ok()
}

/// Relies on `String::from_utf8_lossy`: malformed sequences become U+FFFD.
#[verifier::external_body]
pub(crate) fn utf8_text_lossy(bytes: &[u8]) -> (r: String)
    ensures
        r@ == utf8_lossy(bytes@),
{
    String::from_utf8_lossy(bytes).into_owned()
}

/// Relies on `String::into_bytes`: the UTF-8 encoding of the text.
#[verifier::external_body]
pub(crate) fn string_into_bytes(s: String) -> (r: Vec<u8>)
    ensures
        r@ == encode_utf8(s@),
{
    s.into_bytes()
}

impl Charset {
    /// The `encoding_rs` encoding behind this charset.
    pub closed spec fn spec_encoding(&self) -> &'static encoding_rs::Encoding {
        self.enc
    }

    /// The charset of an `encoding_rs` encoding.
    pub fn from_encoding(enc: &'static encoding_rs::Encoding) -> (r: Charset)
        ensures
            r.spec_encoding() == enc,
    {
        charset_of(enc)
    }

    /// The charset that a WHATWG label denotes, if any; labels of the
    /// replacement encoding denote none.
    pub fn for_label(label: &str) -> (r: Option<Charset>)
        ensures
            r matches Some(c) ==> label_encoding_name(label@) == Some(c@),
            r is None ==> label_encoding_name(label@) is None,
            r matches Some(c) ==> c@ != replacement_name(),
    {
        lookup_label(label)
    }

    /// UTF-8.
    pub fn utf_8() -> (r: Charset)
        ensures
            r@ == utf8_name(),
    {
        utf8_charset()
    }

    /// Relies on `encoding_rs::Encoding::is_ascii_compatible`: every encoding
    /// but replacement, UTF-16BE, UTF-16LE and ISO-2022-JP.
    #[verifier::external_body]
    pub(crate) fn is_ascii_compatible(&self) -> (r: bool)
        ensures
            r == ascii_compatible(self@),
    {
        self.enc.is_ascii_compatible()
    }

    /// Relies on `encoding_rs::Encoding`'s `==`, which compares identity:
    /// the encoding is UTF-8 exactly when its name is "UTF-8".
    #[verifier::external_body]
    pub(crate) fn is_utf8(&self) -> (r: bool)
        ensures
            r == (self@ == utf8_name()),
    {
        self.enc == encoding_rs::UTF_8
    }

    /// Relies on `encoding_rs::Encoding::decode`: decodes complete input with
    /// byte-order-mark sniffing, and reports whether anything was replaced.
    /// Empty input gives empty text; in an ASCII-compatible encoding, whose
    /// bytes 0x00..=0x7F map exactly to U+0000..=U+007F, ASCII input gives
    /// the same characters.
    #[verifier::external_body]
    pub(crate) fn decode_whole<'a>(&self, bytes: &'a [u8]) -> (r: (Cow<'a, str>, bool))
        ensures
            (r.0@, r.1) == whatwg_decode(self@, bytes@),
            bytes@.len() == 0 ==> r.0@.len() == 0 && !r.1,
            ascii_compatible(self@) && is_ascii_bytes(bytes@) ==> r.0@ == ascii_text(bytes@)
                && !r.1,
    {
        let (text, _, lossy) = self.enc.decode(bytes);
        (text, lossy)
    }

    /// The underlying `encoding_rs` encoding.
    pub fn encoding(&self) -> (r: &'static encoding_rs::Encoding)
        ensures
            r == self.spec_encoding(),
    {
        self.enc
    }

    /// The canonical name.
    pub fn name(&self) -> (r: &'static str)
        ensures
            r@ == self@,
    {
        self.name
    }
}

} // verus!
