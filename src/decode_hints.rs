//! The hints that steer a decode: whether to search exhaustively and which
//! formats to look for.
use vstd::prelude::*;

use crate::format::{BarcodeFormat, dedup_formats, first_occurrences};

verus! {

/// One decode hint.
#[derive(Debug, Clone, PartialEq, Eq)]
pub enum DecodeHint {
    /// Whether the decoder spends more time to find a symbol.
    TryHarder(bool),
    /// The only formats the decoder looks for, each once.
    PossibleFormats(Vec<BarcodeFormat>),
}

/// Whether `hints` holds a hint that turns the exhaustive search off.
pub open spec fn disables_try_harder(hints: Seq<DecodeHint>) -> bool {
    exists|i: int| 0 <= i < hints.len() && #[trigger] hints[i] == DecodeHint::TryHarder(false)
}

/// Whether `hints` holds a try-harder hint of any value.
pub open spec fn has_try_harder(hints: Seq<DecodeHint>) -> bool {
    exists|i: int| 0 <= i < hints.len() && #[trigger] hints[i] is TryHarder
}

/// Whether `hints` holds a format allow-list.
pub open spec fn has_formats(hints: Seq<DecodeHint>) -> bool {
    exists|i: int| 0 <= i < hints.len() && #[trigger] hints[i] is PossibleFormats
}

/// Whether `hints` holds a format allow-list that is `formats` without
/// repetitions.
pub open spec fn restricts_to(hints: Seq<DecodeHint>, formats: Seq<BarcodeFormat>) -> bool {
    exists|i: int|
        0 <= i < hints.len() && #[trigger] hints[i] is PossibleFormats && hints[i]->PossibleFormats_0@.to_set()
            == formats.to_set() && hints[i]->PossibleFormats_0@.no_duplicates()
}

/// The hints of a decode: try-harder is turned off explicitly unless it was
/// asked for, and a list of formats, where given, becomes the set of formats
/// the decoder looks for.
pub fn build_decode_hints(try_harder: bool, barcode_types: &Option<Vec<BarcodeFormat>>) -> (r: Vec<
    DecodeHint,
>)
    ensures
        r@.len() == (if try_harder {
            0int
        } else {
            1int
        }) + (if barcode_types is Some {
            1int
        } else {
            0int
        }),
        has_try_harder(r@) <==> !try_harder,
        disables_try_harder(r@) <==> !try_harder,
        has_formats(r@) <==> barcode_types is Some,
        barcode_types is Some ==> restricts_to(r@, barcode_types->0@),
        barcode_types is Some ==> r@.last() is PossibleFormats && r@.last()->PossibleFormats_0@
            == first_occurrences(barcode_types->0@),
{
    let mut r: Vec<DecodeHint> = Vec::new();
    if !try_harder {
        r.push(DecodeHint::TryHarder(false));
        assert(r@[0] == DecodeHint::TryHarder(false));
    }
    match barcode_types {
        Some(types) => {
            let formats = dedup_formats(types);
            r.push(DecodeHint::PossibleFormats(formats));
            let ghost last = r@.len() - 1;
            assert(r@[last] is PossibleFormats);
            assert(r@[last]->PossibleFormats_0@ == formats@);
            assert(!try_harder ==> r@[0] == DecodeHint::TryHarder(false));
            assert(forall|i: int| 0 <= i < r@.len() && #[trigger] r@[i] is TryHarder ==> i == 0
                && !try_harder);
        },
        None => {
            assert(forall|i: int| 0 <= i < r@.len() ==> #[trigger] r@[i] is TryHarder);
        },
    }
    r
}

} // verus!
