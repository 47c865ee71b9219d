use worker_channel::data::{
    DtlsFingerprint, DtlsRole, FingerprintParseError, WebRtcMessage, WebRtcMessageError,
};

fn fingerprint_json(fp: &DtlsFingerprint) -> String {
    let mut map = serde_json::Map::new();
    map.insert(
        "algorithm".to_string(),
        serde_json::Value::String(fp.algorithm_label().to_string()),
    );
    map.insert(
        "value".to_string(),
        serde_json::Value::String(String::from_utf8(fp.value_text()).unwrap()),
    );
    serde_json::to_string(&serde_json::Value::Object(map)).unwrap()
}

fn fingerprint_from_json(s: &str) -> Result<DtlsFingerprint, FingerprintParseError> {
    let v: serde_json::Value = serde_json::from_str(s).unwrap();
    let algorithm = v.get("algorithm").unwrap().as_str().unwrap();
    let value = v.get("value").unwrap().as_str().unwrap();
    DtlsFingerprint::from_parts(algorithm.as_bytes(), value.as_bytes())
}

#[test]
fn dtls_fingerprint() {
    {
        let dtls_fingerprints = &[
            r#"{"algorithm":"sha-1","value":"0D:88:5B:EF:B9:86:F9:66:67:75:7A:C1:7A:78:34:E4:88:DC:44:67"}"#,
            r#"{"algorithm":"sha-224","value":"6E:0C:C7:23:DF:36:E1:C7:46:AB:D7:B1:CE:DD:97:C3:C1:17:25:D6:26:0A:8A:B4:50:F1:3E:BC"}"#,
            r#"{"algorithm":"sha-256","value":"7A:27:46:F0:7B:09:28:F0:10:E2:EC:84:60:B5:87:9A:D9:C8:8B:F3:6C:C5:5D:C3:F3:BA:2C:5B:4F:8A:3A:E3"}"#,
            r#"{"algorithm":"sha-384","value":"D0:B7:F7:3C:71:9F:F4:A1:48:E1:9B:13:25:59:A4:7D:06:BF:E1:1B:DC:0B:8A:8E:45:09:01:22:7E:81:68:EC:DD:B8:DD:CA:1F:F3:F2:E8:15:A5:3C:23:CF:F7:B6:38"}"#,
            r#"{"algorithm":"sha-512","value":"36:8B:9B:CA:2B:01:2B:33:FD:06:95:F2:CC:28:56:69:5B:DD:38:5E:88:32:9A:72:F7:B1:5D:87:9E:64:97:0B:66:A1:C7:6C:BE:4D:CD:83:90:04:AE:20:6C:6D:5F:F0:BD:4C:D9:DD:6E:8A:19:C1:C9:F6:C2:46:C8:08:94:39"}"#,
        ];

        for dtls_fingerprint_str in dtls_fingerprints {
            let dtls_fingerprint = fingerprint_from_json(dtls_fingerprint_str).unwrap();
            assert_eq!(dtls_fingerprint_str, &fingerprint_json(&dtls_fingerprint));
        }
    }

    {
        let bad_dtls_fingerprints = &[
            r#"{"algorithm":"sha-1","value":"0D:88:5B:EF:B9:86:F9:66:67::44:67"}"#,
            r#"{"algorithm":"sha-200","value":"6E:0C:C7:23:DF:36:E1:C7:46:AB:D7:B1:CE:DD:97:C3:C1:17:25:D6:26:0A:8A:B4:50:F1:3E:BC"}"#,
        ];

        for dtls_fingerprint_str in bad_dtls_fingerprints {
            assert!(fingerprint_from_json(dtls_fingerprint_str).is_err());
        }
    }
}

#[test]
fn fingerprint_parse_errors_name_the_fault() {
    // A value of the wrong length for the algorithm.
    assert_eq!(
        DtlsFingerprint::from_parts(b"sha-1", b"0D:88"),
        Err(FingerprintParseError::WrongValueLength)
    );
    // The right length, but a position that holds no hex digit.
    let mut value = b"0D:88:5B:EF:B9:86:F9:66:67:75:7A:C1:7A:78:34:E4:88:DC:44:67".to_vec();
    value[0] = b'G';
    assert_eq!(
        DtlsFingerprint::from_parts(b"sha-1", &value),
        Err(FingerprintParseError::BadHexDigit)
    );
    // An unsupported algorithm label.
    assert_eq!(
        DtlsFingerprint::from_parts(b"md5", b"0D"),
        Err(FingerprintParseError::UnknownAlgorithm)
    );
}

#[test]
fn fingerprint_hex_accepts_lowercase_and_writes_uppercase() {
    let lower = b"0d:88:5b:ef:b9:86:f9:66:67:75:7a:c1:7a:78:34:e4:88:dc:44:67";
    let fp = DtlsFingerprint::from_parts(b"sha-1", lower).unwrap();
    assert_eq!(
        fp.value_text(),
        b"0D:88:5B:EF:B9:86:F9:66:67:75:7A:C1:7A:78:34:E4:88:DC:44:67".to_vec()
    );
}

#[test]
fn dtls_role_default_is_auto() {
    assert_eq!(DtlsRole::default(), DtlsRole::Auto);
}

#[test]
fn webrtc_message_ppid_mapping() {
    // PPID 51: UTF-8 text, kept verbatim.
    match WebRtcMessage::new(51, b"hello".to_vec()).unwrap() {
        WebRtcMessage::String(b) => assert_eq!(b, b"hello".to_vec()),
        other => panic!("wrong variant: {:?}", other),
    }
    // PPID 53: binary.
    match WebRtcMessage::new(53, vec![1, 2, 3]).unwrap() {
        WebRtcMessage::Binary(b) => assert_eq!(b, vec![1, 2, 3]),
        other => panic!("wrong variant: {:?}", other),
    }
    // PPIDs 56 and 57: the empty variants.
    assert_eq!(
        WebRtcMessage::new(56, Vec::new()).unwrap(),
        WebRtcMessage::EmptyString
    );
    assert_eq!(
        WebRtcMessage::new(57, Vec::new()).unwrap(),
        WebRtcMessage::EmptyBinary
    );
}

#[test]
fn webrtc_message_rejects_deprecated_and_unknown_ppids() {
    for ppid in [0u32, 50, 52, 54, 55, 58, 1000] {
        assert_eq!(
            WebRtcMessage::new(ppid, b"x".to_vec()),
            Err(WebRtcMessageError::BadPpid { ppid })
        );
    }
}

#[test]
fn webrtc_message_wire_form() {
    assert_eq!(
        WebRtcMessage::String(b"abc".to_vec()).into_ppid_and_payload(),
        (51, b"abc".to_vec())
    );
    assert_eq!(
        WebRtcMessage::Binary(vec![9, 8]).into_ppid_and_payload(),
        (53, vec![9, 8])
    );
    // The empty variants go out as their one-byte sentinels.
    assert_eq!(
        WebRtcMessage::EmptyString.into_ppid_and_payload(),
        (56, vec![0x20])
    );
    assert_eq!(
        WebRtcMessage::EmptyBinary.into_ppid_and_payload(),
        (57, vec![0x00])
    );
}
