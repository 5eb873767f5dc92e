//! Decoding of complete input in a resolved charset, with a record of whether
//! any malformed sequence had to be replaced.
use crate::charset::{
    ascii_compatible, ascii_text, is_ascii_bytes, string_into_bytes, utf8_lossy, utf8_name,
    utf8_text, utf8_text_lossy, whatwg_decode, Charset,
};
use std::borrow::Cow;
use vstd::prelude::*;
use vstd::utf8::*;

verus! {

/// How faithful a decoding was.
#[derive(Clone, Copy, Debug, PartialEq, Eq, Structural)]
pub enum Accuracy {
    /// No malformed sequence had to be replaced.
    Lossless,
    /// At least one malformed sequence was replaced by U+FFFD.
    Lossy,
}

/// The accuracy of a decoding that did, or did not, replace anything.
pub open spec fn accuracy_of(lossy: bool) -> Accuracy {
    if lossy {
        Accuracy::Lossy
    } else {
        Accuracy::Lossless
    }
}

impl Accuracy {
    /// The accuracy of a decoding that did, or did not, replace anything.
    pub fn from_decode_result(lossy: bool) -> (r: Accuracy)
        ensures
            r == accuracy_of(lossy),
    {
        if lossy {
            Accuracy::Lossy
        } else {
            Accuracy::Lossless
        }
    }
}

/// The text and accuracy of decoding `bytes` in the charset named `name`.
///
/// UTF-8 input that is well-formed is taken as it is; malformed UTF-8 gets
/// replacement characters. Any other charset decodes through its own routine,
/// which reports whether it replaced anything.
pub open spec fn decoding(name: Seq<char>, bytes: Seq<u8>) -> (Seq<char>, Accuracy) {
    if name == utf8_name() {
        if valid_utf8(bytes) {
            (decode_utf8(bytes), Accuracy::Lossless)
        } else {
            (utf8_lossy(bytes), Accuracy::Lossy)
        }
    } else {
        (whatwg_decode(name, bytes).0, accuracy_of(whatwg_decode(name, bytes).1))
    }
}

/// Decoding keeps plain input as it is: empty input gives empty text, and
/// ASCII input in an ASCII-compatible charset gives the same characters, both
/// without loss.
pub open spec fn plain_input_kept(
    name: Seq<char>,
    bytes: Seq<u8>,
    text: Seq<char>,
    accuracy: Accuracy,
) -> bool {
    &&& bytes.len() == 0 ==> text.len() == 0 && accuracy == Accuracy::Lossless
    &&& ascii_compatible(name) && is_ascii_bytes(bytes) ==> text == ascii_text(bytes) && accuracy
        == Accuracy::Lossless
}

/// ASCII bytes are well-formed UTF-8 and decode to the characters they stand
/// for.
pub proof fn lemma_ascii_is_utf8(bytes: Seq<u8>)
    requires
        is_ascii_bytes(bytes),
    ensures
        valid_utf8(bytes),
        decode_utf8(bytes) == ascii_text(bytes),
{
    let chars = ascii_text(bytes);
    assert(is_ascii_chars(chars)) by {
        assert forall|i: int| 0 <= i < chars.len() implies '\0' <= #[trigger] chars[i] <= '\u{7f}' by {
            assert(bytes[i] < 0x80);
        }
    }
    is_ascii_chars_encode_utf8(chars);
    assert(encode_utf8(chars) =~= bytes);
    encode_utf8_valid_utf8(chars);
    encode_utf8_decode_utf8(chars);
}

/// Decodes complete input in `charset` to text.
///
/// Well-formed UTF-8 in UTF-8 is borrowed, not copied.
pub fn decode_text<'a>(bytes: &'a [u8], charset: &Charset) -> (r: (Cow<'a, str>, Accuracy))
    ensures
        (r.0@, r.1) == decoding(charset@, bytes@),
        charset@ == utf8_name() && valid_utf8(bytes@) ==> r.0 is Borrowed,
        plain_input_kept(charset@, bytes@, r.0@, r.1),
{
    proof {
        if is_ascii_bytes(bytes@) {
            lemma_ascii_is_utf8(bytes@);
        }
    }
    if charset.is_utf8() {
        match utf8_text(bytes) {
            Some(text) => (Cow::Borrowed(text), Accuracy::Lossless),
            None => (Cow::Owned(utf8_text_lossy(bytes)), Accuracy::Lossy),
        }
    } else {
        let (text, lossy) = charset.decode_whole(bytes);
        (text, Accuracy::from_decode_result(lossy))
    }
}

/// Decodes complete input in `charset` to the UTF-8 bytes of the text.
///
/// The accuracy is that of `decode_text`; well-formed UTF-8 in UTF-8 is
/// borrowed, not copied.
pub fn decode_utf8_bytes<'a>(bytes: &'a [u8], charset: &Charset) -> (r: (Cow<'a, [u8]>, Accuracy))
    ensures
        r.0@ == encode_utf8(decoding(charset@, bytes@).0),
        r.1 == decoding(charset@, bytes@).1,
        charset@ == utf8_name() && valid_utf8(bytes@) ==> r.0 is Borrowed && r.0@ == bytes@,
{
    let (text, accuracy) = decode_text(bytes, charset);
    match text {
        Cow::Borrowed(s) => {
            proof {
                if charset@ == utf8_name() && valid_utf8(bytes@) {
                    decode_utf8_encode_utf8(bytes@);
                }
            }
            (Cow::Borrowed(s.as_bytes()), accuracy)
        },
        Cow::Owned(s) => (Cow::Owned(string_into_bytes(s)), accuracy),
    }
}

} // verus!
