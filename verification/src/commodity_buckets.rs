//! Structure of the commodity delta charge: rows become curves (one per
//! bucket, commodity and delivery location), curves are grouped by bucket,
//! and each pair of a bucket's weighted sensitivities is related by whether
//! they share the commodity, the location, and by their tenors (MAR 21.83).
use vstd::prelude::*;
use crate::commodity::COMMODITY_TENORS;
use crate::grouping::{
    group_by_keys, in_order_of_first_members, is_grouping_by, key_view, lemma_grouping_congruent,
};
use crate::types::{risk_class_text, RiskClass};

verus! {

/// The columns of a sensitivity row that the commodity delta charge groups by.
#[derive(Clone, Debug, PartialEq)]
pub struct CommodityRow {
    pub risk_class: String,
    pub risk_factor: String,
    pub location: String,
    pub bucket: String,
}

/// Whether a row belongs to the commodity risk class.
pub open spec fn is_commodity_row(r: CommodityRow) -> bool {
    r.risk_class@ == risk_class_text(RiskClass::Commodity)
}

/// The curve of a row: its bucket, commodity and location.
pub open spec fn curve_key_of(r: CommodityRow) -> Seq<Seq<char>> {
    seq![r.bucket@, r.risk_factor@, r.location@]
}

/// Bucket of a curve, taken from its first row.
pub open spec fn curve_bucket(rows: Seq<CommodityRow>, curves: Seq<Vec<usize>>, c: int) -> Seq<Seq<char>> {
    seq![rows[curves[c]@[0] as int].bucket@]
}

/// Groups the commodity rows into curves: rows of other risk classes are
/// left out, and rows that share bucket, commodity and location form one
/// curve. Curves appear in the order of their first rows.
pub fn commodity_curves(rows: &Vec<CommodityRow>) -> (curves: Vec<Vec<usize>>)
    ensures
        is_grouping_by(
            rows.len() as nat,
            |i: int| is_commodity_row(rows@[i]),
            |i: int| curve_key_of(rows@[i]),
            curves@,
        ),
        in_order_of_first_members(curves@),
{
    let commodity = RiskClass::Commodity.as_str().to_owned();
    let mut keys: Vec<Vec<String>> = Vec::new();
    let mut selected: Vec<bool> = Vec::new();
    let mut i: usize = 0;
    while i < rows.len()
        invariant
            i <= rows.len(),
            keys.len() == i,
            selected.len() == i,
            commodity@ == risk_class_text(RiskClass::Commodity),
            forall|j: int| 0 <= j < i ==> key_view(#[trigger] keys@[j]) == curve_key_of(rows@[j]),
            forall|j: int| 0 <= j < i ==> #[trigger] selected@[j] == is_commodity_row(rows@[j]),
        decreases rows.len() - i,
    {
        let row = &rows[i];
        let mut key: Vec<String> = Vec::new();
        key.push(row.bucket.clone());
        key.push(row.risk_factor.clone());
        key.push(row.location.clone());
        assert(key_view(key) =~= curve_key_of(rows@[i as int]));
        keys.push(key);
        selected.push(row.risk_class == commodity);
        i = i + 1;
    }
    let curves = group_by_keys(&keys, &selected);
    proof {
        lemma_grouping_congruent(
            rows.len() as nat,
            |i: int| selected@[i],
            |i: int| key_view(keys@[i]),
            |i: int| is_commodity_row(rows@[i]),
            |i: int| curve_key_of(rows@[i]),
            curves@,
        );
    }
    curves
}

/// Groups curves by bucket, in the order of each bucket's first curve.
pub fn commodity_buckets(rows: &Vec<CommodityRow>, curves: &Vec<Vec<usize>>) -> (buckets: Vec<Vec<usize>>)
    requires
        forall|c: int| 0 <= c < curves.len() ==> #[trigger] curves@[c]@.len() > 0,
        forall|c: int, k: int|
            0 <= c < curves.len() && 0 <= k < curves@[c]@.len() ==> #[trigger] curves@[c]@[k] < rows.len(),
    ensures
        is_grouping_by(
            curves.len() as nat,
            |c: int| true,
            |c: int| curve_bucket(rows@, curves@, c),
            buckets@,
        ),
        in_order_of_first_members(buckets@),
{
    let mut keys: Vec<Vec<String>> = Vec::new();
    let mut selected: Vec<bool> = Vec::new();
    let mut c: usize = 0;
    while c < curves.len()
        invariant
            c <= curves.len(),
            keys.len() == c,
            selected.len() == c,
            forall|d: int| 0 <= d < curves.len() ==> #[trigger] curves@[d]@.len() > 0,
            forall|d: int, k: int|
                0 <= d < curves.len() && 0 <= k < curves@[d]@.len() ==> #[trigger] curves@[d]@[k] < rows.len(),
            forall|d: int| 0 <= d < c ==> key_view(#[trigger] keys@[d]) == curve_bucket(rows@, curves@, d),
            forall|d: int| 0 <= d < c ==> #[trigger] selected@[d],
        decreases curves.len() - c,
    {
        let first = curves[c][0];
        let mut key: Vec<String> = Vec::new();
        key.push(rows[first].bucket.clone());
        assert(key_view(key) =~= curve_bucket(rows@, curves@, c as int));
        keys.push(key);
        selected.push(true);
        c = c + 1;
    }
    let buckets = group_by_keys(&keys, &selected);
    proof {
        lemma_grouping_congruent(
            curves.len() as nat,
            |d: int| selected@[d],
            |d: int| key_view(keys@[d]),
            |d: int| true,
            |d: int| curve_bucket(rows@, curves@, d),
            buckets@,
        );
    }
    buckets
}

/// How two weighted sensitivities of a bucket relate: whether their curves
/// share the commodity and the location, and the tenors of the two.
#[derive(Clone, Copy, Debug, PartialEq, Eq, Structural)]
pub struct EntryPair {
    pub same_risk_factor: bool,
    pub same_location: bool,
    pub tenor_row: usize,
    pub tenor_col: usize,
}

/// First row of the curve at position `p` of a bucket.
pub open spec fn bucket_curve_row(
    rows: Seq<CommodityRow>,
    curves: Seq<Vec<usize>>,
    bucket: Seq<usize>,
    p: int,
) -> CommodityRow {
    rows[curves[bucket[p] as int]@[0] as int]
}

/// Relation of entries `e1` and `e2` of a bucket's weighted sensitivities,
/// laid out curve by curve with the eleven tenors of a curve in order.
pub open spec fn entry_pair(
    rows: Seq<CommodityRow>,
    curves: Seq<Vec<usize>>,
    bucket: Seq<usize>,
    e1: int,
    e2: int,
) -> EntryPair {
    let r1 = bucket_curve_row(rows, curves, bucket, e1 / COMMODITY_TENORS as int);
    let r2 = bucket_curve_row(rows, curves, bucket, e2 / COMMODITY_TENORS as int);
    EntryPair {
        same_risk_factor: r1.risk_factor@ == r2.risk_factor@,
        same_location: r1.location@ == r2.location@,
        tenor_row: (e1 % COMMODITY_TENORS as int) as usize,
        tenor_col: (e2 % COMMODITY_TENORS as int) as usize,
    }
}

/// Relations of every pair of the kept entries of a bucket (the entries
/// whose weighted sensitivity is neither zero nor missing), in the order of
/// `kept`. The commodity correlation of a pair is the product of the name,
/// tenor and basis correlations that its relation selects (MAR 21.83).
pub fn commodity_correlation_structure(
    rows: &Vec<CommodityRow>,
    curves: &Vec<Vec<usize>>,
    bucket: &Vec<usize>,
    kept: &Vec<usize>,
) -> (m: Vec<Vec<EntryPair>>)
    requires
        forall|c: int| 0 <= c < curves.len() ==> #[trigger] curves@[c]@.len() > 0,
        forall|c: int, k: int|
            0 <= c < curves.len() && 0 <= k < curves@[c]@.len() ==> #[trigger] curves@[c]@[k] < rows.len(),
        forall|p: int| 0 <= p < bucket.len() ==> #[trigger] bucket@[p] < curves.len(),
        forall|q: int| 0 <= q < kept.len() ==> #[trigger] kept@[q] < bucket.len() * COMMODITY_TENORS,
    ensures
        m.len() == kept.len(),
        forall|p: int| 0 <= p < kept.len() ==> (#[trigger] m@[p])@.len() == kept.len(),
        forall|p: int, q: int|
            #![trigger m@[p]@[q]]
            0 <= p < kept.len() && 0 <= q < kept.len() ==> m@[p]@[q] == entry_pair(
                rows@,
                curves@,
                bucket@,
                kept@[p] as int,
                kept@[q] as int,
            ),
{
    let n = kept.len();
    let mut m: Vec<Vec<EntryPair>> = Vec::new();
    let mut p: usize = 0;
    while p < n
        invariant
            n == kept.len(),
            p <= n,
            m.len() == p,
            forall|c: int| 0 <= c < curves.len() ==> #[trigger] curves@[c]@.len() > 0,
            forall|c: int, k: int|
                0 <= c < curves.len() && 0 <= k < curves@[c]@.len() ==> #[trigger] curves@[c]@[k] < rows.len(),
            forall|b: int| 0 <= b < bucket.len() ==> #[trigger] bucket@[b] < curves.len(),
            forall|q: int| 0 <= q < kept.len() ==> #[trigger] kept@[q] < bucket.len() * COMMODITY_TENORS,
            forall|a: int| 0 <= a < p ==> (#[trigger] m@[a])@.len() == n,
            forall|a: int, q: int|
                #![trigger m@[a]@[q]]
                0 <= a < p && 0 <= q < n ==> m@[a]@[q] == entry_pair(
                    rows@,
                    curves@,
                    bucket@,
                    kept@[a] as int,
                    kept@[q] as int,
                ),
        decreases n - p,
    {
        let e1 = kept[p];
        let r1 = &rows[curves[bucket[e1 / COMMODITY_TENORS]][0]];
        let mut line: Vec<EntryPair> = Vec::new();
        let mut q: usize = 0;
        while q < n
            invariant
                n == kept.len(),
                p < n,
                q <= n,
                line.len() == q,
                e1 == kept@[p as int],
                e1 < bucket.len() * COMMODITY_TENORS,
                *r1 == bucket_curve_row(rows@, curves@, bucket@, (e1 as int) / (COMMODITY_TENORS as int)),
                forall|c: int| 0 <= c < curves.len() ==> #[trigger] curves@[c]@.len() > 0,
                forall|c: int, k: int|
                    0 <= c < curves.len() && 0 <= k < curves@[c]@.len() ==> #[trigger] curves@[c]@[k] < rows.len(),
                forall|b: int| 0 <= b < bucket.len() ==> #[trigger] bucket@[b] < curves.len(),
                forall|x: int| 0 <= x < kept.len() ==> #[trigger] kept@[x] < bucket.len() * COMMODITY_TENORS,
                forall|x: int|
                    0 <= x < q ==> #[trigger] line@[x] == entry_pair(
                        rows@,
                        curves@,
                        bucket@,
                        kept@[p as int] as int,
                        kept@[x] as int,
                    ),
            decreases n - q,
        {
            let e2 = kept[q];
            let r2 = &rows[curves[bucket[e2 / COMMODITY_TENORS]][0]];
            line.push(
                EntryPair {
                    same_risk_factor: r1.risk_factor == r2.risk_factor,
                    same_location: r1.location == r2.location,
                    tenor_row: e1 % COMMODITY_TENORS,
                    tenor_col: e2 % COMMODITY_TENORS,
                },
            );
            q = q + 1;
        }
        m.push(line);
        p = p + 1;
    }
    m
}

} // verus!
