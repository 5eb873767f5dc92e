//! Byte-order-mark sniffing.
use crate::charset::{bom_encoding, charset_for_bom, Charset};
use crate::decoder::{decode_text, decode_utf8_bytes, decoding, Accuracy};
use crate::pipeline::DetectionError;
use std::borrow::Cow;
use vstd::prelude::*;
use vstd::utf8::*;

verus! {

/// The canonical name of the charset that a byte-order mark at the start of
/// `bytes` announces.
pub open spec fn bom_charset(bytes: Seq<u8>) -> Option<Seq<char>> {
    match bom_encoding(bytes) {
        Some((name, _)) => Some(name),
        None => None,
    }
}

/// The charset announced by a UTF-8, UTF-16LE or UTF-16BE byte-order mark at
/// the start of `bytes`, if there is one.
pub fn sniff_bom(bytes: &[u8]) -> (r: Option<Charset>)
    ensures
        r matches Some(c) ==> bom_charset(bytes@) == Some(c@),
        r is None ==> bom_charset(bytes@) is None,
{
    match charset_for_bom(bytes) {
        Some((c, _)) => Some(c),
        None => None,
    }
}

/// A detector that trusts a byte-order mark and otherwise takes the caller's
/// hint; fast, and right on a mix of UTF-8 and marked UTF-16 input.
pub struct BomDetector;

impl BomDetector {
    /// The charset of a byte-order mark at the start of `data`, else `hint`.
    pub fn detect_encoding(data: &[u8], hint: &Charset) -> (r: Result<Charset, DetectionError>)
        ensures
            r matches Ok(c) && match bom_charset(data@) {
                Some(name) => c@ == name,
                None => c == *hint,
            },
    {
        match sniff_bom(data) {
            Some(c) => Ok(c),
            None => Ok(*hint),
        }
    }

    /// Decodes `data` in the charset that `detect_encoding` gives.
    pub fn decode<'a>(data: &'a [u8], hint: &Charset) -> (r: Result<
        (Cow<'a, str>, Accuracy),
        DetectionError,
    >)
        ensures
            r matches Ok((text, accuracy)) && (text@, accuracy) == decoding(
                match bom_charset(data@) {
                    Some(name) => name,
                    None => hint@,
                },
                data@,
            ),
    {
        match BomDetector::detect_encoding(data, hint) {
            Ok(c) => Ok(decode_text(data, &c)),
            Err(e) => Err(e),
        }
    }

    /// Decodes `data` to UTF-8 bytes in the charset that `detect_encoding`
    /// gives.
    pub fn decode_as_utf8_bytes<'a>(data: &'a [u8], hint: &Charset) -> (r: Result<
        (Cow<'a, [u8]>, Accuracy),
        DetectionError,
    >)
        ensures
            r matches Ok((bytes, accuracy)) && {
                let d = decoding(
                    match bom_charset(data@) {
                        Some(name) => name,
                        None => hint@,
                    },
                    data@,
                );
                bytes@ == encode_utf8(d.0) && accuracy == d.1
            },
    {
        match BomDetector::detect_encoding(data, hint) {
            Ok(c) => Ok(decode_utf8_bytes(data, &c)),
            Err(e) => Err(e),
        }
    }
}

} // verus!
