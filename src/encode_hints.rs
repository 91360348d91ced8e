//! The hints that steer an encode: one hint for each per-format option that
//! the caller set, with the value type that the codec expects for it.
use vstd::prelude::*;
use vstd::string::StringExecFns;

verus! {

/// The configuration dimension that an encode hint sets.
#[derive(Debug, Clone, Copy, PartialEq, Eq, Structural, Hash)]
pub enum EncodeHintKey {
    ErrorCorrection,
    CharacterSet,
    DataMatrixCompact,
    Margin,
    Pdf417Compact,
    Pdf417Compaction,
    Pdf417AutoEci,
    AztecLayers,
    QrVersion,
    QrMaskPattern,
    QrCompact,
    Gs1Format,
    ForceCodeSet,
    ForceC40,
    Code128Compact,
}

/// The value of an encode hint.
#[derive(Debug, Clone, PartialEq, Eq)]
pub enum HintValue {
    Text(String),
    Flag(bool),
    Number(i32),
}

/// One encode hint: a key and its value.
#[derive(Debug, Clone, PartialEq, Eq)]
pub struct EncodeHint {
    pub key: EncodeHintKey,
    pub value: HintValue,
}

/// The per-format options of an encode request; `None` leaves the codec's
/// default in place.
#[derive(Debug, Clone, PartialEq, Eq, Default)]
pub struct EncodeOptions {
    pub error_correction: Option<String>,
    pub character_set: Option<String>,
    pub data_matrix_compact: Option<bool>,
    pub margin: Option<String>,
    pub pdf_417_compact: Option<bool>,
    pub pdf_417_compaction: Option<String>,
    pub pdf_417_auto_eci: Option<bool>,
    pub aztec_layers: Option<i32>,
    pub qr_version: Option<String>,
    pub qr_mask_pattern: Option<String>,
    pub qr_compact: Option<bool>,
    pub gs1_format: Option<bool>,
    pub force_code_set: Option<String>,
    pub force_c40: Option<bool>,
    pub code_128_compact: Option<bool>,
}

/// How a flag reads as text.
pub open spec fn bool_text(b: bool) -> Seq<char> {
    if b {
        "true"@
    } else {
        "false"@
    }
}

/// Whether `v` is the text hint value `t`.
pub open spec fn is_text(v: HintValue, t: Option<String>) -> bool {
    t is Some && v is Text && v->Text_0@ == t->0@
}

/// Whether `v` is the flag `b` rendered as text.
pub open spec fn is_flag_text(v: HintValue, b: Option<bool>) -> bool {
    b is Some && v is Text && v->Text_0@ == bool_text(b->0)
}

/// Whether `v` is the flag hint value `b`.
pub open spec fn is_flag(v: HintValue, b: Option<bool>) -> bool {
    b is Some && v == HintValue::Flag(b->0)
}

/// Whether `v` is the integer hint value `n`.
pub open spec fn is_number(v: HintValue, n: Option<i32>) -> bool {
    n is Some && v == HintValue::Number(n->0)
}

/// Whether the options set the field behind `k`.
pub open spec fn is_set(o: EncodeOptions, k: EncodeHintKey) -> bool {
    match k {
        EncodeHintKey::ErrorCorrection => o.error_correction is Some,
        EncodeHintKey::CharacterSet => o.character_set is Some,
        EncodeHintKey::DataMatrixCompact => o.data_matrix_compact is Some,
        EncodeHintKey::Margin => o.margin is Some,
        EncodeHintKey::Pdf417Compact => o.pdf_417_compact is Some,
        EncodeHintKey::Pdf417Compaction => o.pdf_417_compaction is Some,
        EncodeHintKey::Pdf417AutoEci => o.pdf_417_auto_eci is Some,
        EncodeHintKey::AztecLayers => o.aztec_layers is Some,
        EncodeHintKey::QrVersion => o.qr_version is Some,
        EncodeHintKey::QrMaskPattern => o.qr_mask_pattern is Some,
        EncodeHintKey::QrCompact => o.qr_compact is Some,
        EncodeHintKey::Gs1Format => o.gs1_format is Some,
        EncodeHintKey::ForceCodeSet => o.force_code_set is Some,
        EncodeHintKey::ForceC40 => o.force_c40 is Some,
        EncodeHintKey::Code128Compact => o.code_128_compact is Some,
    }
}

/// Whether `v` is the value that the options give to the hint `k`, in the
/// value type of that key.
pub open spec fn is_value_of(o: EncodeOptions, k: EncodeHintKey, v: HintValue) -> bool {
    match k {
        EncodeHintKey::ErrorCorrection => is_text(v, o.error_correction),
        EncodeHintKey::CharacterSet => is_text(v, o.character_set),
        EncodeHintKey::DataMatrixCompact => is_flag(v, o.data_matrix_compact),
        EncodeHintKey::Margin => is_text(v, o.margin),
        EncodeHintKey::Pdf417Compact => is_flag_text(v, o.pdf_417_compact),
        EncodeHintKey::Pdf417Compaction => is_text(v, o.pdf_417_compaction),
        EncodeHintKey::Pdf417AutoEci => is_flag_text(v, o.pdf_417_auto_eci),
        EncodeHintKey::AztecLayers => is_number(v, o.aztec_layers),
        EncodeHintKey::QrVersion => is_text(v, o.qr_version),
        EncodeHintKey::QrMaskPattern => is_text(v, o.qr_mask_pattern),
        EncodeHintKey::QrCompact => is_flag_text(v, o.qr_compact),
        EncodeHintKey::Gs1Format => is_flag(v, o.gs1_format),
        EncodeHintKey::ForceCodeSet => is_text(v, o.force_code_set),
        EncodeHintKey::ForceC40 => is_flag(v, o.force_c40),
        EncodeHintKey::Code128Compact => is_flag(v, o.code_128_compact),
    }
}

/// The keys of a list of hints, in order.
pub open spec fn keys_of(hints: Seq<EncodeHint>) -> Seq<EncodeHintKey> {
    hints.map_values(|h: EncodeHint| h.key)
}

/// Whether `hints` is the hint map of the options: one hint for each field
/// that is set and none for another, each with the value of its field.
pub open spec fn hints_of(o: EncodeOptions, hints: Seq<EncodeHint>) -> bool {
    &&& keys_of(hints).no_duplicates()
    &&& forall|k: EncodeHintKey| #[trigger] keys_of(hints).contains(k) <==> is_set(o, k)
    &&& forall|i: int| 0 <= i < hints.len() ==> is_value_of(o, #[trigger] hints[i].key, hints[i].value)
}

/// Whether two hint values are the same value of the same type.
pub open spec fn same_value(x: HintValue, y: HintValue) -> bool {
    match (x, y) {
        (HintValue::Text(s), HintValue::Text(t)) => s@ == t@,
        (HintValue::Flag(a), HintValue::Flag(b)) => a == b,
        (HintValue::Number(a), HintValue::Number(b)) => a == b,
        _ => false,
    }
}

/// The hint map of a set of options does not depend on the order in which
/// its hints stand: any two hint lists that are the hint map of the same
/// options are as long, hold the same keys, and give each key the same
/// value of the same type.
pub proof fn lemma_hint_map_order_independent(
    o: EncodeOptions,
    a: Seq<EncodeHint>,
    b: Seq<EncodeHint>,
)
    requires
        hints_of(o, a),
        hints_of(o, b),
    ensures
        a.len() == b.len(),
        forall|k: EncodeHintKey| #[trigger] keys_of(a).contains(k) <==> keys_of(b).contains(k),
        forall|i: int, j: int|
            0 <= i < a.len() && 0 <= j < b.len() && #[trigger] a[i].key == #[trigger] b[j].key
                ==> same_value(a[i].value, b[j].value),
{
    assert(keys_of(a).to_set() =~= keys_of(b).to_set()) by {
        assert forall|k: EncodeHintKey| keys_of(a).to_set().contains(k) <==> keys_of(
            b,
        ).to_set().contains(k) by {
            assert(keys_of(a).contains(k) <==> is_set(o, k));
            assert(keys_of(b).contains(k) <==> is_set(o, k));
        }
    }
    keys_of(a).unique_seq_to_set();
    keys_of(b).unique_seq_to_set();
    assert forall|i: int, j: int|
        0 <= i < a.len() && 0 <= j < b.len() && #[trigger] a[i].key == #[trigger] b[j].key
            implies same_value(a[i].value, b[j].value) by {
        assert(is_value_of(o, a[i].key, a[i].value));
        assert(is_value_of(o, b[j].key, b[j].value));
    }
}

/// The number of encode hint keys.
pub const KEY_COUNT: usize = 15;

/// The place of `k` in the order in which hints are built.
pub open spec fn rank(k: EncodeHintKey) -> int {
    match k {
        EncodeHintKey::ErrorCorrection => 0,
        EncodeHintKey::CharacterSet => 1,
        EncodeHintKey::DataMatrixCompact => 2,
        EncodeHintKey::Margin => 3,
        EncodeHintKey::Pdf417Compact => 4,
        EncodeHintKey::Pdf417Compaction => 5,
        EncodeHintKey::Pdf417AutoEci => 6,
        EncodeHintKey::AztecLayers => 7,
        EncodeHintKey::QrVersion => 8,
        EncodeHintKey::QrMaskPattern => 9,
        EncodeHintKey::QrCompact => 10,
        EncodeHintKey::Gs1Format => 11,
        EncodeHintKey::ForceCodeSet => 12,
        EncodeHintKey::ForceC40 => 13,
        EncodeHintKey::Code128Compact => 14,
    }
}

/// The key at place `i` of the build order.
fn key_at(i: usize) -> (k: EncodeHintKey)
    requires
        i < KEY_COUNT,
    ensures
        rank(k) == i,
{
    match i {
        0 => EncodeHintKey::ErrorCorrection,
        1 => EncodeHintKey::CharacterSet,
        2 => EncodeHintKey::DataMatrixCompact,
        3 => EncodeHintKey::Margin,
        4 => EncodeHintKey::Pdf417Compact,
        5 => EncodeHintKey::Pdf417Compaction,
        6 => EncodeHintKey::Pdf417AutoEci,
        7 => EncodeHintKey::AztecLayers,
        8 => EncodeHintKey::QrVersion,
        9 => EncodeHintKey::QrMaskPattern,
        10 => EncodeHintKey::QrCompact,
        11 => EncodeHintKey::Gs1Format,
        12 => EncodeHintKey::ForceCodeSet,
        13 => EncodeHintKey::ForceC40,
        _ => EncodeHintKey::Code128Compact,
    }
}

/// A flag written as text.
fn flag_text(b: bool) -> (r: String)
    ensures
        r@ == bool_text(b),
{
    if b {
        String::from_str("true")
    } else {
        String::from_str("false")
    }
}

/// A text hint from an optional string.
fn text_value(t: &Option<String>) -> (r: Option<HintValue>)
    ensures
        r is Some <==> t is Some,
        r is Some ==> is_text(r->0, *t),
{
    match t {
        Some(s) => Some(HintValue::Text(s.clone())),
        None => None,
    }
}

/// A text hint from an optional flag.
fn flag_text_value(b: &Option<bool>) -> (r: Option<HintValue>)
    ensures
        r is Some <==> b is Some,
        r is Some ==> is_flag_text(r->0, *b),
{
    match b {
        Some(f) => Some(HintValue::Text(flag_text(*f))),
        None => None,
    }
}

/// A flag hint from an optional flag.
fn flag_value(b: &Option<bool>) -> (r: Option<HintValue>)
    ensures
        r is Some <==> b is Some,
        r is Some ==> is_flag(r->0, *b),
{
    match b {
        Some(f) => Some(HintValue::Flag(*f)),
        None => None,
    }
}

/// An integer hint from an optional integer.
fn number_value(n: &Option<i32>) -> (r: Option<HintValue>)
    ensures
        r is Some <==> n is Some,
        r is Some ==> is_number(r->0, *n),
{
    match n {
        Some(v) => Some(HintValue::Number(*v)),
        None => None,
    }
}

/// The value that the options give to the hint `k`, if its field is set.
pub fn hint_value(o: &EncodeOptions, k: EncodeHintKey) -> (r: Option<HintValue>)
    ensures
        r is Some <==> is_set(*o, k),
        r is Some ==> is_value_of(*o, k, r->0),
{
    match k {
        EncodeHintKey::ErrorCorrection => text_value(&o.error_correction),
        EncodeHintKey::CharacterSet => text_value(&o.character_set),
        EncodeHintKey::DataMatrixCompact => flag_value(&o.data_matrix_compact),
        EncodeHintKey::Margin => text_value(&o.margin),
        EncodeHintKey::Pdf417Compact => flag_text_value(&o.pdf_417_compact),
        EncodeHintKey::Pdf417Compaction => text_value(&o.pdf_417_compaction),
        EncodeHintKey::Pdf417AutoEci => flag_text_value(&o.pdf_417_auto_eci),
        EncodeHintKey::AztecLayers => number_value(&o.aztec_layers),
        EncodeHintKey::QrVersion => text_value(&o.qr_version),
        EncodeHintKey::QrMaskPattern => text_value(&o.qr_mask_pattern),
        EncodeHintKey::QrCompact => flag_text_value(&o.qr_compact),
        EncodeHintKey::Gs1Format => flag_value(&o.gs1_format),
        EncodeHintKey::ForceCodeSet => text_value(&o.force_code_set),
        EncodeHintKey::ForceC40 => flag_value(&o.force_c40),
        EncodeHintKey::Code128Compact => flag_value(&o.code_128_compact),
    }
}

/// The hint map of the options: one hint for each field that is set, keyed
/// by that field's key and coerced to that key's value type.
pub fn build_encode_hints(o: &EncodeOptions) -> (r: Vec<EncodeHint>)
    ensures
        hints_of(*o, r@),
{
    let mut r: Vec<EncodeHint> = Vec::new();
    let mut i: usize = 0;
    while i < KEY_COUNT
        invariant
            i <= KEY_COUNT,
            keys_of(r@).no_duplicates(),
            forall|k: EncodeHintKey| #[trigger]
                keys_of(r@).contains(k) <==> (rank(k) < i && is_set(*o, k)),
            forall|j: int| 0 <= j < r@.len() ==> is_value_of(*o, #[trigger] r@[j].key, r@[j].value),
        decreases KEY_COUNT - i,
    {
        let k = key_at(i);
        let ghost before = r@;
        match hint_value(o, k) {
            Some(v) => {
                r.push(EncodeHint { key: k, value: v });
                proof {
                    assert(keys_of(r@) =~= keys_of(before).push(k));
                    assert(!keys_of(before).contains(k));
                    assert forall|q: EncodeHintKey| #[trigger]
                        keys_of(r@).contains(q) <==> (rank(q) < i + 1 && is_set(*o, q)) by {
                        if q == k {
                            assert(keys_of(r@)[before.len() as int] == k);
                        }
                        if keys_of(r@).contains(q) && q != k {
                            let m = choose|m: int| 0 <= m < keys_of(r@).len() && #[trigger] keys_of(r@)[m] == q;
                            assert(keys_of(before)[m] == q);
                        }
                        if keys_of(before).contains(q) {
                            let m = choose|m: int| 0 <= m < keys_of(before).len() && #[trigger] keys_of(before)[m] == q;
                            assert(keys_of(r@)[m] == q);
                        }
                    }
                }
            },
            None => {},
        }
        i = i + 1;
    }
    r
}

} // verus!
