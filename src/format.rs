//! The barcode symbologies that the codec reads and writes.
use vstd::prelude::*;

verus! {

/// A barcode symbology.
#[allow(non_camel_case_types)]
#[derive(Debug, Clone, Copy, PartialEq, Eq, Structural, Hash)]
pub enum BarcodeFormat {
    AZTEC,
    CODABAR,
    CODE_39,
    CODE_93,
    CODE_128,
    DATA_MATRIX,
    EAN_8,
    EAN_13,
    ITF,
    MAXICODE,
    PDF_417,
    QR_CODE,
    MICRO_QR_CODE,
    RECTANGULAR_MICRO_QR_CODE,
    RSS_14,
    RSS_EXPANDED,
    TELEPEN,
    UPC_A,
    UPC_E,
    UPC_EAN_EXTENSION,
    DXFilmEdge,
    UNSUPORTED_FORMAT,
}

/// Whether `v` holds `f`.
pub fn contains_format(v: &Vec<BarcodeFormat>, f: BarcodeFormat) -> (r: bool)
    ensures
        r == v@.contains(f),
{
    let mut i: usize = 0;
    while i < v.len()
        invariant
            i <= v@.len(),
            forall|j: int| 0 <= j < i ==> v@[j] != f,
        decreases v@.len() - i,
    {
        if v[i] == f {
            return true;
        }
        i = i + 1;
    }
    false
}

/// The formats of `s`, each once, in the order of their first occurrence.
pub open spec fn first_occurrences(s: Seq<BarcodeFormat>) -> Seq<BarcodeFormat>
    decreases s.len(),
{
    if s.len() == 0 {
        s
    } else {
        let p = first_occurrences(s.drop_last());
        if p.contains(s.last()) {
            p
        } else {
            p.push(s.last())
        }
    }
}

/// The formats of `v`, each once, in the order of their first occurrence.
pub fn dedup_formats(v: &Vec<BarcodeFormat>) -> (r: Vec<BarcodeFormat>)
    ensures
        r@ == first_occurrences(v@),
        r@.no_duplicates(),
        r@.to_set() == v@.to_set(),
        r@.len() <= v@.len(),
{
    let mut r: Vec<BarcodeFormat> = Vec::new();
    let mut i: usize = 0;
    assert(v@.subrange(0, 0) =~= Seq::<BarcodeFormat>::empty());
    while i < v.len()
        invariant
            i <= v@.len(),
            r@.len() <= i,
            r@.no_duplicates(),
            r@ == first_occurrences(v@.subrange(0, i as int)),
            forall|f: BarcodeFormat| r@.contains(f) <==> v@.subrange(0, i as int).contains(f),
        decreases v@.len() - i,
    {
        let f = v[i];
        let ghost before = r@;
        if !contains_format(&r, f) {
            r.push(f);
            proof {
                assert(r@[r@.len() - 1] == f);
            }
        }
        proof {
            let prefix = v@.subrange(0, i as int);
            let next = v@.subrange(0, i + 1);
            assert(next =~= prefix.push(f));
            assert(next.drop_last() =~= prefix);
            assert(r@.contains(f));
            assert forall|g: BarcodeFormat| r@.contains(g) <==> next.contains(g) by {
                if r@.contains(g) && g != f {
                    let k = choose|k: int| 0 <= k < r@.len() && #[trigger] r@[k] == g;
                    assert(k < before.len());
                    assert(before[k] == g);
                    assert(before.contains(g));
                    assert(prefix.contains(g));
                    let m = choose|m: int| 0 <= m < prefix.len() && #[trigger] prefix[m] == g;
                    assert(next[m] == g);
                }
                if next.contains(g) && g != f {
                    let m = choose|m: int| 0 <= m < next.len() && #[trigger] next[m] == g;
                    assert(prefix[m] == g);
                    assert(before.contains(g));
                    let k = choose|k: int| 0 <= k < before.len() && #[trigger] before[k] == g;
                    assert(r@[k] == g);
                }
                if g == f {
                    assert(next[i as int] == g);
                }
            }
        }
        i = i + 1;
    }
    proof {
        assert(v@.subrange(0, v@.len() as int) == v@);
        assert(r@.to_set() =~= v@.to_set());
    }
    r
}

} // verus!
