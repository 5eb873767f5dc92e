use std::borrow::Cow;
use std::cell::Cell;
use std::rc::Rc;
use uchardet::{
    decode, decode_as_utf8_bytes, decode_text, decode_utf8_bytes, detect_encoding,
    detect_encoding_name, detection_outcome, feed_result, label_from_bytes, name_outcome,
    sniff_bom, Accuracy, BomDetector, Charset, DetectionError, ErrorKind, Prober, ProberHandle,
    ProberState, UChardetDetector, Unresolved,
};

/// A prober that gives a fixed status and label, and counts the calls made.
struct StubProber {
    status: i32,
    label: Vec<u8>,
    calls: Rc<Cell<usize>>,
}

impl StubProber {
    fn new(label: &str) -> StubProber {
        StubProber::with(0, label.as_bytes().to_vec())
    }

    fn with(status: i32, label: Vec<u8>) -> StubProber {
        StubProber {
            status,
            label,
            calls: Rc::new(Cell::new(0)),
        }
    }
}

impl Prober for StubProber {
    fn handle_data(&mut self, _data: &[u8]) -> i32 {
        self.calls.set(self.calls.get() + 1);
        self.status
    }

    fn data_end(&mut self) {
        self.calls.set(self.calls.get() + 1);
    }

    fn get_charset(&self) -> Vec<u8> {
        self.calls.set(self.calls.get() + 1);
        self.label.clone()
    }

    fn reset(&mut self) {
        self.calls.set(self.calls.get() + 1);
    }
}

/// A prober whose guess depends on what it was fed: "UTF-8" for non-ASCII
/// UTF-8, "windows-1252" for other non-ASCII bytes, empty for ASCII.
struct ByteProber {
    fed: Vec<u8>,
    guess: Vec<u8>,
}

impl Prober for ByteProber {
    fn handle_data(&mut self, data: &[u8]) -> i32 {
        self.fed.extend_from_slice(data);
        0
    }

    fn data_end(&mut self) {
        let guess: &[u8] = if self.fed.is_ascii() {
            b""
        } else if std::str::from_utf8(&self.fed).is_ok() {
            b"UTF-8"
        } else {
            b"windows-1252"
        };
        self.guess = guess.to_vec();
    }

    fn get_charset(&self) -> Vec<u8> {
        self.guess.clone()
    }

    fn reset(&mut self) {
        self.fed.clear();
        self.guess.clear();
    }
}

fn latin1_francais() -> Vec<u8> {
    vec![0x46, 0x72, 0x61, 0x6e, 0xe7, 0x6f, 0x69, 0x73, 0xe9]
}

#[test]
fn bom_decides_and_the_prober_is_never_called() {
    let cases: Vec<(Vec<u8>, &str)> = vec![
        (vec![0xEF, 0xBB, 0xBF, b'h', b'i'], "UTF-8"),
        (vec![0xEF, 0xBB, 0xBF, 0xFF, 0x00], "UTF-8"),
        (vec![0xFF, 0xFE, b'h', 0x00], "UTF-16LE"),
        (vec![0xFE, 0xFF, 0x00, b'h'], "UTF-16BE"),
        (vec![0xFF, 0xFE], "UTF-16LE"),
    ];
    for (data, expected) in cases {
        let stub = StubProber::new("ISO-2022-KR");
        let calls = stub.calls.clone();
        let hint = Charset::from_encoding(encoding_rs::SHIFT_JIS);
        let mut handle = ProberHandle::new(stub);
        let r = detect_encoding(&mut handle, &data, &hint).unwrap();
        assert_eq!(handle.state(), ProberState::Created);
        assert_eq!(r.name(), expected);
        assert_eq!(calls.get(), 0);
    }
}

#[test]
fn sniff_bom_recognizes_the_three_marks() {
    assert_eq!(sniff_bom(&[0xEF, 0xBB, 0xBF]).unwrap().name(), "UTF-8");
    assert_eq!(sniff_bom(&[0xFF, 0xFE, 0x41]).unwrap().name(), "UTF-16LE");
    assert_eq!(sniff_bom(&[0xFE, 0xFF]).unwrap().name(), "UTF-16BE");
    assert_eq!(sniff_bom(&[0xEF, 0xBB]), None);
    assert_eq!(sniff_bom(&[0xFF]), None);
    assert_eq!(sniff_bom(b""), None);
    assert_eq!(sniff_bom(b"abc"), None);
}

#[test]
fn bom_detector_falls_back_to_the_hint() {
    let hint = Charset::from_encoding(encoding_rs::WINDOWS_1252);
    assert_eq!(BomDetector::detect_encoding(b"plain", &hint), Ok(hint));
    let r = BomDetector::detect_encoding(&[0xFE, 0xFF, 0x00, 0x41], &hint).unwrap();
    assert_eq!(r.name(), "UTF-16BE");
    let (text, accuracy) = BomDetector::decode(&[0xFF, 0xFE, 0x41, 0x00], &hint).unwrap();
    assert_eq!(text, "A");
    assert_eq!(accuracy, Accuracy::Lossless);
    let data = latin1_francais();
    let (text, accuracy) = BomDetector::decode(&data, &hint).unwrap();
    assert_eq!(text, "Fran\u{e7}ois\u{e9}");
    assert_eq!(accuracy, Accuracy::Lossless);
    let (bytes, accuracy) = BomDetector::decode_as_utf8_bytes(&data, &hint).unwrap();
    assert_eq!(&bytes[..], "Fran\u{e7}ois\u{e9}".as_bytes());
    assert_eq!(accuracy, Accuracy::Lossless);
}

#[test]
fn valid_utf8_decodes_losslessly_without_copying() {
    let data = "caf\u{e9} \u{a9} \u{1f600}".as_bytes();
    let (text, accuracy) = decode_text(data, &Charset::utf_8());
    assert!(matches!(text, Cow::Borrowed(_)));
    assert_eq!(text, std::str::from_utf8(data).unwrap());
    assert_eq!(accuracy, Accuracy::Lossless);
    let (bytes, accuracy) = decode_utf8_bytes(data, &Charset::utf_8());
    assert!(matches!(bytes, Cow::Borrowed(_)));
    assert_eq!(&bytes[..], data);
    assert_eq!(accuracy, Accuracy::Lossless);
}

#[test]
fn invalid_utf8_is_lossy_with_replacement_characters() {
    let data = [b'a', 0xFF, b'b', 0xC3];
    let (text, accuracy) = decode_text(&data, &Charset::utf_8());
    assert_eq!(text, "a\u{fffd}b\u{fffd}");
    assert_eq!(accuracy, Accuracy::Lossy);
    let (bytes, accuracy) = decode_utf8_bytes(&data, &Charset::utf_8());
    assert_eq!(&bytes[..], "a\u{fffd}b\u{fffd}".as_bytes());
    assert_eq!(accuracy, Accuracy::Lossy);
}

#[test]
fn non_utf8_bytes_decode_losslessly_in_their_own_charset() {
    let data = latin1_francais();
    assert!(std::str::from_utf8(&data).is_err());
    let windows_1252 = Charset::from_encoding(encoding_rs::WINDOWS_1252);
    let (text, accuracy) = decode_text(&data, &windows_1252);
    assert_eq!(text, "Fran\u{e7}ois\u{e9}");
    assert_eq!(accuracy, Accuracy::Lossless);
    let (bytes, accuracy) = decode_utf8_bytes(&data, &windows_1252);
    assert_eq!(&bytes[..], "Fran\u{e7}ois\u{e9}".as_bytes());
    assert_eq!(accuracy, Accuracy::Lossless);
}

#[test]
fn malformed_shift_jis_is_lossy() {
    let shift_jis = Charset::from_encoding(encoding_rs::SHIFT_JIS);
    let (text, accuracy) = decode_text(&[0x82, 0xA0, 0x82], &shift_jis);
    assert_eq!(text, "\u{3042}\u{fffd}");
    assert_eq!(accuracy, Accuracy::Lossy);
}

#[test]
fn accuracy_from_decode_result() {
    assert_eq!(Accuracy::from_decode_result(true), Accuracy::Lossy);
    assert_eq!(Accuracy::from_decode_result(false), Accuracy::Lossless);
}

#[test]
fn reset_then_repeat_gives_the_same_label() {
    for data in [latin1_francais(), "caf\u{e9}".as_bytes().to_vec(), b"ascii".to_vec()] {
        let mut handle = ProberHandle::new(ByteProber {
            fed: Vec::new(),
            guess: Vec::new(),
        });
        assert_eq!(handle.state(), ProberState::Created);
        handle.feed(&data).unwrap();
        assert_eq!(handle.state(), ProberState::Fed);
        handle.finalize();
        assert_eq!(handle.state(), ProberState::Finalized);
        let first = handle.charset();
        handle.reset();
        assert_eq!(handle.state(), ProberState::Created);
        handle.feed(&data).unwrap();
        handle.finalize();
        let second = handle.charset();
        assert_eq!(first, second);
        handle.release();
    }
}

#[test]
fn failed_feed_keeps_the_state_and_reports_the_code() {
    let mut handle = ProberHandle::new(StubProber::with(1, Vec::new()));
    assert_eq!(handle.feed(b"x"), Err(ErrorKind::OutOfMemory));
    assert_eq!(handle.state(), ProberState::Created);
    let mut handle = ProberHandle::new(StubProber::with(-3, Vec::new()));
    assert_eq!(handle.feed(b"x"), Err(ErrorKind::Other(-3)));
    assert_eq!(handle.state(), ProberState::Created);
}

#[test]
fn from_nsresult_maps_codes() {
    assert_eq!(ErrorKind::from_nsresult(1), ErrorKind::OutOfMemory);
    assert_eq!(ErrorKind::from_nsresult(2), ErrorKind::Other(2));
    assert_eq!(ErrorKind::from_nsresult(-1), ErrorKind::Other(-1));
    assert_eq!(feed_result(0), Ok(()));
    assert_eq!(feed_result(1), Err(ErrorKind::OutOfMemory));
}

#[test]
fn label_bytes_must_be_utf8() {
    assert_eq!(label_from_bytes(b"UTF-8"), Ok("UTF-8".to_string()));
    assert_eq!(label_from_bytes(b""), Ok(String::new()));
    assert_eq!(
        label_from_bytes(&[0x55, 0xFF]),
        Err(ErrorKind::ContractViolation)
    );
}

#[test]
fn scenario_ascii_with_utf8_hint() {
    let hint = Charset::utf_8();
    let r = detect_encoding(&mut ProberHandle::new(StubProber::new("")), b"ascii", &hint).unwrap();
    assert_eq!(r, hint);
    assert_eq!(r.name(), "UTF-8");
    let (text, accuracy) = decode(&mut ProberHandle::new(StubProber::new("")), b"ascii", &hint).unwrap();
    assert_eq!(text, "ascii");
    assert_eq!(accuracy, Accuracy::Lossless);
}

#[test]
fn scenario_latin1_francais() {
    let hint = Charset::utf_8();
    let data = latin1_francais();
    let r = detect_encoding(&mut ProberHandle::new(StubProber::new("WINDOWS-1252")), &data, &hint).unwrap();
    assert_eq!(r.name(), "windows-1252");
    assert_ne!(r, hint);
    let (text, accuracy) = decode(&mut ProberHandle::new(StubProber::new("WINDOWS-1252")), &data, &hint).unwrap();
    assert_eq!(text, "Fran\u{e7}ois\u{e9}");
    assert_eq!(accuracy, Accuracy::Lossless);
    let (text, accuracy) = decode(&mut ProberHandle::new(StubProber::new("ISO-8859-1")), &data, &hint).unwrap();
    assert_eq!(text, "Fran\u{e7}ois\u{e9}");
    assert_eq!(accuracy, Accuracy::Lossless);
}

#[test]
fn scenario_utf8_cafe() {
    let data = "caf\u{e9}".as_bytes();
    assert_eq!(
        detect_encoding_name(&mut ProberHandle::new(StubProber::new("UTF-8")), data),
        Ok("UTF-8".to_string())
    );
    let (text, accuracy) = decode(&mut ProberHandle::new(StubProber::new("UTF-8")), data, &Charset::utf_8()).unwrap();
    assert_eq!(text, "caf\u{e9}");
    assert_eq!(accuracy, Accuracy::Lossless);
}

#[test]
fn scenario_empty_input() {
    assert_eq!(sniff_bom(b""), None);
    let hint = Charset::utf_8();
    assert_eq!(detect_encoding(&mut ProberHandle::new(StubProber::new("")), b"", &hint), Ok(hint));
    let (text, accuracy) = decode(&mut ProberHandle::new(StubProber::new("")), b"", &hint).unwrap();
    assert_eq!(text, "");
    assert_eq!(accuracy, Accuracy::Lossless);
}

#[test]
fn detection_follows_the_engine_output() {
    let hint = Charset::utf_8();
    let data = latin1_francais();
    assert_eq!(
        detection_outcome(&data, &hint, 1, b"UTF-8"),
        Err(DetectionError::EngineFailure(ErrorKind::OutOfMemory))
    );
    assert_eq!(
        detection_outcome(&data, &hint, 9, b"UTF-8"),
        Err(DetectionError::EngineFailure(ErrorKind::Other(9)))
    );
    assert_eq!(
        detection_outcome(&data, &hint, 0, &[0xC0]),
        Err(DetectionError::EngineFailure(ErrorKind::ContractViolation))
    );
    assert_eq!(detection_outcome(&data, &hint, 0, b""), Ok(hint));
    assert_eq!(
        detection_outcome(&data, &hint, 0, b"windows-1252")
            .unwrap()
            .name(),
        "windows-1252"
    );
    assert_eq!(
        detection_outcome(&data, &hint, 0, b"UTF-16"),
        Err(DetectionError::Unresolved(Unresolved::Ambiguous))
    );
    assert_eq!(
        detection_outcome(&[0xFE, 0xFF], &hint, 1, b"UTF-16")
            .unwrap()
            .name(),
        "UTF-16BE"
    );
}

#[test]
fn pipeline_errors() {
    let hint = Charset::utf_8();
    assert_eq!(
        detect_encoding(&mut ProberHandle::new(StubProber::with(1, Vec::new())), b"abc", &hint),
        Err(DetectionError::EngineFailure(ErrorKind::OutOfMemory))
    );
    assert_eq!(
        detect_encoding(&mut ProberHandle::new(StubProber::with(0, vec![0xFF])), b"abc", &hint),
        Err(DetectionError::EngineFailure(ErrorKind::ContractViolation))
    );
    assert_eq!(
        detect_encoding(&mut ProberHandle::new(StubProber::new("ISO-2022-CN")), b"abc", &hint),
        Err(DetectionError::Unresolved(Unresolved::Unsafe(
            "ISO-2022-CN".to_string()
        )))
    );
    assert_eq!(
        decode(&mut ProberHandle::new(StubProber::new("EUC-TW")), b"abc", &hint),
        Err(DetectionError::Unresolved(Unresolved::Unsupported(
            "EUC-TW".to_string()
        )))
    );
    assert_eq!(
        decode_as_utf8_bytes(&mut ProberHandle::new(StubProber::new("UTF-16")), b"abc", &hint),
        Err(DetectionError::Unresolved(Unresolved::Ambiguous))
    );
}

#[test]
fn detect_encoding_name_errors() {
    assert_eq!(
        detect_encoding_name(&mut ProberHandle::new(StubProber::new("")), b"abc"),
        Err(ErrorKind::UnrecognizableCharset)
    );
    assert_eq!(
        detect_encoding_name(&mut ProberHandle::new(StubProber::with(1, b"UTF-8".to_vec())), b"abc"),
        Err(ErrorKind::OutOfMemory)
    );
    assert_eq!(
        detect_encoding_name(&mut ProberHandle::new(StubProber::with(0, vec![0xFE])), b"abc"),
        Err(ErrorKind::ContractViolation)
    );
    assert_eq!(name_outcome(0, b"WINDOWS-1252"), Ok("WINDOWS-1252".to_string()));
    assert_eq!(name_outcome(0, b""), Err(ErrorKind::UnrecognizableCharset));
    assert_eq!(name_outcome(4, b"UTF-8"), Err(ErrorKind::Other(4)));
}

#[test]
fn detector_struct_uses_its_prober() {
    let hint = Charset::utf_8();
    let data = latin1_francais();
    let mut detector = UChardetDetector::new(StubProber::new("windows-1252"));
    assert_eq!(
        detector.detect_encoding(&data, &hint).unwrap().name(),
        "windows-1252"
    );
    let (text, accuracy) = detector
        .decode(&data, &hint)
        .unwrap();
    assert_eq!(text, "Fran\u{e7}ois\u{e9}");
    assert_eq!(accuracy, Accuracy::Lossless);
    let (bytes, accuracy) = detector
        .decode_as_utf8_bytes(&data, &hint)
        .unwrap();
    assert_eq!(&bytes[..], "Fran\u{e7}ois\u{e9}".as_bytes());
    assert_eq!(accuracy, Accuracy::Lossless);
}

#[test]
fn utf16_with_bom_is_decoded_without_the_mark() {
    let data = [0xFF, 0xFE, 0x41, 0x00, 0x42, 0x00];
    let (text, accuracy) = decode(&mut ProberHandle::new(StubProber::new("UTF-16")), &data, &Charset::utf_8()).unwrap();
    assert_eq!(text, "AB");
    assert_eq!(accuracy, Accuracy::Lossless);
}

#[test]
fn error_details() {
    assert_eq!(
        DetectionError::EngineFailure(ErrorKind::UnrecognizableCharset).detail(),
        "could not guess encoding"
    );
    assert_eq!(
        DetectionError::Unresolved(Unresolved::Unsupported("EUC-TW".to_string())).detail(),
        "no decoder for EUC-TW"
    );
    assert_eq!(
        DetectionError::Unresolved(Unresolved::Unsafe("ISO-2022-KR".to_string())).detail(),
        "refused unsafe encoding ISO-2022-KR"
    );
    assert_eq!(
        DetectionError::Unresolved(Unresolved::Ambiguous).detail(),
        "byte order of UTF-16 is unknown"
    );
    assert_eq!(
        DetectionError::EngineFailure(ErrorKind::Other(5)).detail(),
        "charset prober failed"
    );
}

#[test]
fn prober_is_reset_and_fed_once_with_the_whole_input() {
    let stub = StubProber::new("windows-1252");
    let calls = stub.calls.clone();
    let mut handle = ProberHandle::new(stub);
    let data = latin1_francais();
    let hint = Charset::utf_8();
    detect_encoding(&mut handle, &data, &hint).unwrap();
    // reset, handle_data, data_end, get_charset
    assert_eq!(calls.get(), 4);
    assert_eq!(handle.state(), ProberState::Finalized);
    let mut recorder = ProberHandle::new(ByteProber {
        fed: b"stale".to_vec(),
        guess: Vec::new(),
    });
    let r = detect_encoding(&mut recorder, &data, &hint).unwrap();
    assert_eq!(r.name(), "windows-1252");
    let r = detect_encoding(&mut recorder, b"plain", &hint).unwrap();
    assert_eq!(r, hint);
    assert_eq!(
        detect_encoding_name(&mut recorder, "caf\u{e9}".as_bytes()),
        Ok("UTF-8".to_string())
    );
}

#[test]
fn ascii_and_empty_input_are_kept_in_ascii_compatible_charsets() {
    let shift_jis = Charset::from_encoding(encoding_rs::SHIFT_JIS);
    let (text, accuracy) = decode_text(b"plain ascii", &shift_jis);
    assert_eq!(text, "plain ascii");
    assert_eq!(accuracy, Accuracy::Lossless);
    let utf16le = Charset::from_encoding(encoding_rs::UTF_16LE);
    let (text, accuracy) = decode_text(b"", &utf16le);
    assert_eq!(text, "");
    assert_eq!(accuracy, Accuracy::Lossless);
    let (text, accuracy) = decode(&mut ProberHandle::new(StubProber::new("")), b"", &shift_jis).unwrap();
    assert_eq!(text, "");
    assert_eq!(accuracy, Accuracy::Lossless);
}
