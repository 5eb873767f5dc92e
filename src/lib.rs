//! Character-encoding detection and decoding.
//!
//! A byte sequence of unknown provenance is turned into text in four steps:
//! a byte-order mark, when there is one, decides the encoding outright;
//! otherwise a pluggable statistical prober guesses a charset label; that
//! label is resolved against a security-aware policy and the WHATWG label
//! table of `encoding_rs`; and the bytes are decoded, reporting whether any
//! replacement characters were needed.
pub mod bom;
pub mod charset;
pub mod decoder;
pub mod engine;
pub mod pipeline;
pub mod prober;
pub mod resolver;

pub use bom::{sniff_bom, BomDetector};
pub use charset::Charset;
pub use decoder::{decode_text, decode_utf8_bytes, Accuracy};
pub use pipeline::{
    decode, decode_as_utf8_bytes, detect_encoding, detection_outcome, DecodingError,
    DetectionError, UChardetDetector,
};
pub use prober::{
    detect_encoding_name, feed_result, label_from_bytes, name_outcome, ErrorKind, Prober,
    ProberHandle, ProberState,
};
pub use resolver::{is_unsafe, labels_match, resolve, Unresolved};
