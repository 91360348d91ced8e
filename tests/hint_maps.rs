use rxing_cli::decode_hints::{build_decode_hints, DecodeHint};
use rxing_cli::encode_hints::{
    build_encode_hints, hint_value, EncodeHint, EncodeHintKey, EncodeOptions, HintValue,
};
use rxing_cli::format::{contains_format, dedup_formats, BarcodeFormat};

fn value_of(hints: &[EncodeHint], key: EncodeHintKey) -> Option<HintValue> {
    hints.iter().find(|h| h.key == key).map(|h| h.value.clone())
}

#[test]
fn no_options_give_no_hints() {
    assert!(build_encode_hints(&EncodeOptions::default()).is_empty());
}

#[test]
fn aztec_layers_become_a_signed_integer_hint() {
    let mut o = EncodeOptions::default();
    o.aztec_layers = Some(-2);
    let hints = build_encode_hints(&o);
    assert_eq!(
        hints,
        vec![EncodeHint {
            key: EncodeHintKey::AztecLayers,
            value: HintValue::Number(-2)
        }]
    );
}

#[test]
fn gs1_format_becomes_a_flag_hint() {
    let mut o = EncodeOptions::default();
    o.gs1_format = Some(true);
    let hints = build_encode_hints(&o);
    assert_eq!(hints.len(), 1);
    assert_eq!(
        value_of(&hints, EncodeHintKey::Gs1Format),
        Some(HintValue::Flag(true))
    );
}

#[test]
fn pdf417_and_qr_flags_are_rendered_as_text() {
    let mut o = EncodeOptions::default();
    o.pdf_417_compact = Some(true);
    o.pdf_417_auto_eci = Some(false);
    o.qr_compact = Some(true);
    let hints = build_encode_hints(&o);
    assert_eq!(hints.len(), 3);
    assert_eq!(
        value_of(&hints, EncodeHintKey::Pdf417Compact),
        Some(HintValue::Text("true".to_string()))
    );
    assert_eq!(
        value_of(&hints, EncodeHintKey::Pdf417AutoEci),
        Some(HintValue::Text("false".to_string()))
    );
    assert_eq!(
        value_of(&hints, EncodeHintKey::QrCompact),
        Some(HintValue::Text("true".to_string()))
    );
}

fn every_option() -> EncodeOptions {
    EncodeOptions {
        error_correction: Some("H".to_string()),
        character_set: Some("UTF-8".to_string()),
        data_matrix_compact: Some(true),
        margin: Some("2".to_string()),
        pdf_417_compact: Some(false),
        pdf_417_compaction: Some("TEXT".to_string()),
        pdf_417_auto_eci: Some(true),
        aztec_layers: Some(3),
        qr_version: Some("7".to_string()),
        qr_mask_pattern: Some("5".to_string()),
        qr_compact: Some(false),
        gs1_format: Some(false),
        force_code_set: Some("C".to_string()),
        force_c40: Some(false),
        code_128_compact: Some(true),
    }
}

#[test]
fn every_option_gives_one_hint_per_key() {
    let hints = build_encode_hints(&every_option());
    assert_eq!(hints.len(), 15);
    for (i, a) in hints.iter().enumerate() {
        for b in hints.iter().skip(i + 1) {
            assert_ne!(a.key, b.key);
        }
    }
    assert_eq!(
        value_of(&hints, EncodeHintKey::ErrorCorrection),
        Some(HintValue::Text("H".to_string()))
    );
    assert_eq!(
        value_of(&hints, EncodeHintKey::CharacterSet),
        Some(HintValue::Text("UTF-8".to_string()))
    );
    assert_eq!(
        value_of(&hints, EncodeHintKey::DataMatrixCompact),
        Some(HintValue::Flag(true))
    );
    assert_eq!(
        value_of(&hints, EncodeHintKey::Margin),
        Some(HintValue::Text("2".to_string()))
    );
    assert_eq!(
        value_of(&hints, EncodeHintKey::Pdf417Compact),
        Some(HintValue::Text("false".to_string()))
    );
    assert_eq!(
        value_of(&hints, EncodeHintKey::Pdf417Compaction),
        Some(HintValue::Text("TEXT".to_string()))
    );
    assert_eq!(
        value_of(&hints, EncodeHintKey::AztecLayers),
        Some(HintValue::Number(3))
    );
    assert_eq!(
        value_of(&hints, EncodeHintKey::QrVersion),
        Some(HintValue::Text("7".to_string()))
    );
    assert_eq!(
        value_of(&hints, EncodeHintKey::QrMaskPattern),
        Some(HintValue::Text("5".to_string()))
    );
    assert_eq!(
        value_of(&hints, EncodeHintKey::ForceCodeSet),
        Some(HintValue::Text("C".to_string()))
    );
    assert_eq!(
        value_of(&hints, EncodeHintKey::ForceC40),
        Some(HintValue::Flag(false))
    );
    assert_eq!(
        value_of(&hints, EncodeHintKey::Code128Compact),
        Some(HintValue::Flag(true))
    );
}

#[test]
fn hint_value_is_none_for_unset_fields() {
    let mut o = EncodeOptions::default();
    o.qr_version = Some("3".to_string());
    assert_eq!(hint_value(&o, EncodeHintKey::Margin), None);
    assert_eq!(
        hint_value(&o, EncodeHintKey::QrVersion),
        Some(HintValue::Text("3".to_string()))
    );
}

#[test]
fn the_same_fields_give_the_same_hints_whatever_was_set_first() {
    let mut a = EncodeOptions::default();
    a.margin = Some("1".to_string());
    a.aztec_layers = Some(-4);
    let mut b = EncodeOptions::default();
    b.aztec_layers = Some(-4);
    b.margin = Some("1".to_string());
    let ha = build_encode_hints(&a);
    let hb = build_encode_hints(&b);
    assert_eq!(ha.len(), hb.len());
    for h in &ha {
        assert_eq!(value_of(&hb, h.key), Some(h.value.clone()));
    }
}

#[test]
fn try_harder_off_inserts_an_explicit_hint() {
    assert_eq!(
        build_decode_hints(false, &None),
        vec![DecodeHint::TryHarder(false)]
    );
}

#[test]
fn try_harder_on_omits_the_hint() {
    assert!(build_decode_hints(true, &None).is_empty());
}

#[test]
fn requested_formats_are_deduplicated() {
    let types = vec![
        BarcodeFormat::QR_CODE,
        BarcodeFormat::AZTEC,
        BarcodeFormat::QR_CODE,
    ];
    let hints = build_decode_hints(true, &Some(types));
    assert_eq!(
        hints,
        vec![DecodeHint::PossibleFormats(vec![
            BarcodeFormat::QR_CODE,
            BarcodeFormat::AZTEC
        ])]
    );
    let hints = build_decode_hints(false, &Some(vec![BarcodeFormat::EAN_13]));
    assert_eq!(
        hints,
        vec![
            DecodeHint::TryHarder(false),
            DecodeHint::PossibleFormats(vec![BarcodeFormat::EAN_13])
        ]
    );
}

#[test]
fn dedup_keeps_first_occurrences() {
    let v = vec![
        BarcodeFormat::UPC_A,
        BarcodeFormat::UPC_A,
        BarcodeFormat::CODE_39,
        BarcodeFormat::UPC_A,
    ];
    assert_eq!(
        dedup_formats(&v),
        vec![BarcodeFormat::UPC_A, BarcodeFormat::CODE_39]
    );
    assert!(dedup_formats(&Vec::new()).is_empty());
    assert!(contains_format(&v, BarcodeFormat::CODE_39));
    assert!(!contains_format(&v, BarcodeFormat::ITF));
}
