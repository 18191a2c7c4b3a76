//! Properties that hold across the library's functions.
use vstd::prelude::*;
use crate::csr_nonsec_totals::csrnonsec_total_catalogue;
use crate::csr_sec_ctp_curvature::csrsecctp_curv_catalogue;
use crate::csr_sec_ctp_delta::csrsecctp_delta_catalogue;
use crate::commodity::{commodity_weighted_tenor, COMMODITY_TENORS};
use crate::commodity_buckets::{
    curve_bucket, curve_key_of, entry_pair, is_commodity_row, CommodityRow,
};
use crate::grouping::is_grouping_by;
use crate::csr_sec_ctp_delta::{ctp_weighted_tenor, CTP_TENORS};
use crate::errors::{polars_exception_class, ExceptionClass, PolarsErrorKind};
use crate::recipe::{ChargeRecipe, category_class_filter, fill_null_sum, MeasureExpr, MeasureView, PrecomputeFilter};
use crate::types::{Jurisdiction, ReturnMetric, Scenario};
use crate::types::{RiskCategory, RiskClass};
use crate::commodity::commodity_delta_recipe;
use crate::vega::{com_vega_catalogue, com_vega_recipe};
use crate::csr_sec_ctp_delta::{csr_sec_ctp_delta_recipe, ctp_delta_gamma_default};
use crate::overrides::{first_named_from, param_source_spec, ParamSource};

verus! {

/// The summands of a left-nested sum of null-filled terms, in order.
pub open spec fn summands(e: MeasureExpr) -> Seq<MeasureExpr>
    decreases e,
{
    match e {
        MeasureExpr::FillNullZero(b) => seq![*b],
        MeasureExpr::Add(a, b) => match *b {
            MeasureExpr::FillNullZero(c) => summands(*a).push(*c),
            _ => Seq::empty(),
        },
        _ => Seq::empty(),
    }
}

/// A null-filled sum of `n` terms has exactly the terms `t(0), ..., t(n-1)`
/// as summands, in that order.
pub proof fn lemma_fill_null_sum_summands(t: spec_fn(int) -> MeasureExpr, n: nat)
    requires
        n >= 1,
    ensures
        summands(fill_null_sum(t, n)) == Seq::new(n, |i: int| t(i)),
    decreases n,
{
    if n > 1 {
        lemma_fill_null_sum_summands(t, (n - 1) as nat);
    }
    assert(summands(fill_null_sum(t, n)) =~= Seq::new(n, |i: int| t(i)));
}

/// The total weighted commodity delta adds each of the eleven tenors once,
/// tenor `i` weighted by item `i` of `SensWeights`.
pub proof fn lemma_commodity_weighted_total_covers_tenors()
    ensures
        summands(fill_null_sum(|i: int| commodity_weighted_tenor(i), COMMODITY_TENORS as nat))
            == Seq::new(COMMODITY_TENORS as nat, |i: int| commodity_weighted_tenor(i)),
{
    lemma_fill_null_sum_summands(|i: int| commodity_weighted_tenor(i), COMMODITY_TENORS as nat);
}

/// The total weighted CTP delta adds each of the five tenors once, tenor
/// `i` weighted by item `i` of the jurisdiction's weights.
pub proof fn lemma_ctp_weighted_total_covers_tenors(j: Jurisdiction)
    ensures
        summands(fill_null_sum(|i: int| ctp_weighted_tenor(j, i), CTP_TENORS as nat))
            == Seq::new(CTP_TENORS as nat, |i: int| ctp_weighted_tenor(j, i)),
{
    lemma_fill_null_sum_summands(|i: int| ctp_weighted_tenor(j, i), CTP_TENORS as nat);
}

/// Every row of every curve of a bucket is a commodity row that carries
/// the bucket's label.
pub proof fn lemma_bucket_rows_carry_label(
    rows: Seq<CommodityRow>,
    curves: Seq<Vec<usize>>,
    buckets: Seq<Vec<usize>>,
    b: int,
    k: int,
    j: int,
)
    requires
        is_grouping_by(rows.len(), |i: int| is_commodity_row(rows[i]), |i: int| curve_key_of(rows[i]), curves),
        is_grouping_by(curves.len(), |c: int| true, |c: int| curve_bucket(rows, curves, c), buckets),
        0 <= b < buckets.len(),
        0 <= k < buckets[b]@.len(),
        0 <= j < curves[buckets[b]@[k] as int]@.len(),
    ensures
        is_commodity_row(rows[curves[buckets[b]@[k] as int]@[j] as int]),
        rows[curves[buckets[b]@[k] as int]@[j] as int].bucket@ == curve_bucket(rows, curves, buckets[b]@[0] as int)[0],
{
    let c = buckets[b]@[k] as int;
    let r = curves[c]@[j] as int;
    assert(curve_key_of(rows[r]) == curve_key_of(rows[curves[c]@[0] as int]));
    assert(curve_key_of(rows[r])[0] == rows[r].bucket@);
    assert(curve_key_of(rows[curves[c]@[0] as int])[0] == rows[curves[c]@[0] as int].bucket@);
    assert(curve_bucket(rows, curves, c) == curve_bucket(rows, curves, buckets[b]@[0] as int));
}

/// The relation of two entries of a bucket is symmetric, and every entry
/// shares commodity, location and tenor with itself; so the correlations
/// built from it form a symmetric matrix.
pub proof fn lemma_entry_pair_symmetric(
    rows: Seq<CommodityRow>,
    curves: Seq<Vec<usize>>,
    bucket: Seq<usize>,
    e1: int,
    e2: int,
)
    ensures
        entry_pair(rows, curves, bucket, e1, e2).same_risk_factor
            == entry_pair(rows, curves, bucket, e2, e1).same_risk_factor,
        entry_pair(rows, curves, bucket, e1, e2).same_location
            == entry_pair(rows, curves, bucket, e2, e1).same_location,
        entry_pair(rows, curves, bucket, e1, e2).tenor_row == entry_pair(rows, curves, bucket, e2, e1).tenor_col,
        entry_pair(rows, curves, bucket, e1, e2).tenor_col == entry_pair(rows, curves, bucket, e2, e1).tenor_row,
        entry_pair(rows, curves, bucket, e1, e1).same_risk_factor,
        entry_pair(rows, curves, bucket, e1, e1).same_location,
        entry_pair(rows, curves, bucket, e1, e1).tenor_row == entry_pair(rows, curves, bucket, e1, e1).tenor_col,
{
}

/// The commodity delta and vega charges of a scenario take their gamma
/// from the same override and, where the request has none, from the same
/// field of the scenario.
pub proof fn lemma_commodity_charges_share_gamma(scenario: Scenario, metric: ReturnMetric)
    ensures
        match (commodity_delta_recipe(scenario), com_vega_recipe(scenario, metric)) {
            (ChargeRecipe::CommodityDelta { gamma: g1, .. }, ChargeRecipe::EquityVega { gamma: g2, .. }) => g1
                == g2,
            _ => false,
        },
{
}

/// The CTP delta charge reads its gamma override under one name, the same
/// in every scenario and for every metric: the first override under that
/// name replaces the jurisdiction's default gamma in all of them alike
/// where its value reads as a gamma, and the default stays where it does
/// not or where there is none.
pub proof fn lemma_ctp_gamma_override_every_scenario(
    j: Jurisdiction,
    s1: Scenario,
    m1: ReturnMetric,
    s2: Scenario,
    m2: ReturnMetric,
    suffix1: Seq<char>,
    suffix2: Seq<char>,
    entries: Seq<(String, bool)>,
)
    ensures
        match (csr_sec_ctp_delta_recipe(j, s1, m1), csr_sec_ctp_delta_recipe(j, s2, m2)) {
            (
                ChargeRecipe::CsrNonSecDelta { gamma: g1, .. },
                ChargeRecipe::CsrNonSecDelta { gamma: g2, .. },
            ) => {
                &&& param_source_spec(g1, suffix1, entries) == param_source_spec(g2, suffix2, entries)
                &&& param_source_spec(g1, suffix1, entries) == match first_named_from(
                    entries,
                    "base_csr_ctp_rating_gamma"@,
                    0,
                ) {
                    Some(i) => if entries[i].1 {
                        ParamSource::Override(i as usize)
                    } else {
                        ParamSource::Default(ctp_delta_gamma_default(j))
                    },
                    None => ParamSource::Default(ctp_delta_gamma_default(j)),
                }
            },
            _ => false,
        },
{
}

/// Distinct kinds of engine error are raised as distinct Python exception
/// classes, and never as the class of (de)serialisation or other errors.
pub proof fn lemma_engine_error_classes_distinct(k1: PolarsErrorKind, k2: PolarsErrorKind)
    ensures
        polars_exception_class(k1) == polars_exception_class(k2) ==> k1 == k2,
        polars_exception_class(k1) != ExceptionClass::SerdeJsonError,
        polars_exception_class(k1) != ExceptionClass::OtherError,
{
}

/// The names of a catalogue's measures, in order.
pub open spec fn catalogue_names(cat: Seq<MeasureView>) -> Seq<Seq<char>> {
    cat.map_values(|m: MeasureView| m.name)
}

/// The names of a list are pairwise distinct where a function of a name
/// gives back each name's position in the list.
pub proof fn lemma_names_distinct(names: Seq<Seq<char>>, position: spec_fn(Seq<char>) -> int)
    requires
        forall|i: int| 0 <= i < names.len() ==> #[trigger] position(names[i]) == i,
    ensures
        forall|i: int, j: int| 0 <= i < j < names.len() ==> #[trigger] names[i] != #[trigger] names[j],
{
    assert forall|i: int, j: int| 0 <= i < j < names.len() implies names[i] != names[j] by {
        assert(position(names[i]) == i);
        assert(position(names[j]) == j);
    }
}

/// The measures of `com_vega_catalogue` have pairwise distinct names, and every one
/// of them is computed on the commodity vega rows.
pub proof fn lemma_com_vega_catalogue()
    ensures
        forall|i: int| 0 <= i < com_vega_catalogue().len() ==> #[trigger] com_vega_catalogue()[i].precompute_filter == category_class_filter(RiskCategory::Vega, RiskClass::Commodity),
        forall|i: int, j: int|
            0 <= i < j < com_vega_catalogue().len() ==> #[trigger] com_vega_catalogue()[i].name != #[trigger] com_vega_catalogue()[j].name,
{
    let cat = com_vega_catalogue();
    reveal_strlit("Commodity_VegaSens");
    reveal_strlit("Commodity_VegaSens_Weighted");
    reveal_strlit("Commodity_VegaSb");
    reveal_strlit("Commodity_VegaKb_Low");
    reveal_strlit("Commodity_VegaCharge_Low");
    reveal_strlit("Commodity_VegaKb_Medium");
    reveal_strlit("Commodity_VegaCharge_Medium");
    reveal_strlit("Commodity_VegaKb_High");
    reveal_strlit("Commodity_VegaCharge_High");
    let names = catalogue_names(cat);
    let position = |s: Seq<char>| if s.len() == 16 {
        2int
    } else if s.len() == 18 {
        0int
    } else if s.len() == 20 {
        3int
    } else if s.len() == 21 {
        7int
    } else if s.len() == 23 {
        5int
    } else if s.len() == 24 {
        4int
    } else if s.len() == 25 {
        8int
    } else {
        if s[14] == 'C' {
            6int
        } else {
            1int
        }
    };
    assert forall|i: int| 0 <= i < cat.len() implies #[trigger] cat[i].precompute_filter == category_class_filter(RiskCategory::Vega, RiskClass::Commodity) by {
        if i == 0 {} else if i == 1 {} else if i == 2 {} else if i == 3 {} else if i == 4 {} else if i == 5 {} else if i == 6 {} else if i == 7 {} else if i == 8 {}
    }
    assert forall|i: int| 0 <= i < names.len() implies #[trigger] position(names[i]) == i by {
        if i == 0 {} else if i == 1 {} else if i == 2 {} else if i == 3 {} else if i == 4 {} else if i == 5 {} else if i == 6 {} else if i == 7 {} else if i == 8 {}
    }
    lemma_names_distinct(names, position);
    assert forall|i: int, j: int| 0 <= i < j < cat.len() implies cat[i].name != cat[j].name by {
        assert(names[i] == cat[i].name && names[j] == cat[j].name);
    }
}

/// The measures of `csrnonsec_total_catalogue` have pairwise distinct names, and every one
/// of them is computed on the non-securitisation credit spread rows.
pub proof fn lemma_csrnonsec_total_catalogue()
    ensures
        forall|i: int| 0 <= i < csrnonsec_total_catalogue().len() ==> #[trigger] csrnonsec_total_catalogue()[i].precompute_filter == Some(PrecomputeFilter { risk_category: None, risk_class: RiskClass::CsrNonSec }),
        forall|i: int, j: int|
            0 <= i < j < csrnonsec_total_catalogue().len() ==> #[trigger] csrnonsec_total_catalogue()[i].name != #[trigger] csrnonsec_total_catalogue()[j].name,
{
    let cat = csrnonsec_total_catalogue();
    reveal_strlit("CSR nonSec TotalCharge Low");
    reveal_strlit("CSR nonSec TotalCharge Medium");
    reveal_strlit("CSR nonSec TotalCharge High");
    reveal_strlit("CSR nonSec TotalCharge MAX");
    let names = catalogue_names(cat);
    let position = |s: Seq<char>| if s.len() == 26 {
        if s[23] == 'L' {
            0int
        } else {
            3int
        }
    } else if s.len() == 27 {
        2int
    } else {
        1int
    };
    assert forall|i: int| 0 <= i < cat.len() implies #[trigger] cat[i].precompute_filter == Some(PrecomputeFilter { risk_category: None, risk_class: RiskClass::CsrNonSec }) by {
        if i == 0 {} else if i == 1 {} else if i == 2 {} else if i == 3 {}
    }
    assert forall|i: int| 0 <= i < names.len() implies #[trigger] position(names[i]) == i by {
        if i == 0 {} else if i == 1 {} else if i == 2 {} else if i == 3 {}
    }
    lemma_names_distinct(names, position);
    assert forall|i: int, j: int| 0 <= i < j < cat.len() implies cat[i].name != cat[j].name by {
        assert(names[i] == cat[i].name && names[j] == cat[j].name);
    }
}

/// The measures of `csrsecctp_curv_catalogue` have pairwise distinct names, and every one
/// of them is computed on the CTP delta rows.
pub proof fn lemma_csrsecctp_curv_catalogue()
    ensures
        forall|i: int| 0 <= i < csrsecctp_curv_catalogue().len() ==> #[trigger] csrsecctp_curv_catalogue()[i].precompute_filter == category_class_filter(RiskCategory::Delta, RiskClass::CsrSecCtp),
        forall|i: int, j: int|
            0 <= i < j < csrsecctp_curv_catalogue().len() ==> #[trigger] csrsecctp_curv_catalogue()[i].name != #[trigger] csrsecctp_curv_catalogue()[j].name,
{
    let cat = csrsecctp_curv_catalogue();
    reveal_strlit("CSR Sec CTP CurvatureDelta");
    reveal_strlit("CSR Sec CTP CurvatureDelta_Weighted");
    reveal_strlit("CSR Sec CTP PnLup");
    reveal_strlit("CSR Sec CTP PnLdown");
    reveal_strlit("CSR Sec CTP CVRup");
    reveal_strlit("CSR Sec CTP CVRdown");
    reveal_strlit("CSR Sec CTP Curvature KbPlus Medium");
    reveal_strlit("CSR Sec CTP Curvature KbMinus Medium");
    reveal_strlit("CSR Sec CTP Curvature Kb Medium");
    reveal_strlit("CSR Sec CTP Curvature Sb Medium");
    reveal_strlit("CSR Sec CTP CurvatureCharge Medium");
    reveal_strlit("CSR Sec CTP Curvature KbPlus Low");
    reveal_strlit("CSR Sec CTP Curvature KbMinus Low");
    reveal_strlit("CSR Sec CTP Curvature Kb Low");
    reveal_strlit("CSR Sec CTP Curvature Sb Low");
    reveal_strlit("CSR Sec CTP CurvatureCharge Low");
    reveal_strlit("CSR Sec CTP Curvature KbPlus High");
    reveal_strlit("CSR Sec CTP Curvature KbMinus High");
    reveal_strlit("CSR Sec CTP Curvature Kb High");
    reveal_strlit("CSR Sec CTP Curvature Sb High");
    reveal_strlit("CSR Sec CTP CurvatureCharge High");
    reveal_strlit("CSR Sec CTP CurvatureCharge MAX");
    let names = catalogue_names(cat);
    let position = |s: Seq<char>| if s.len() == 17 {
        if s[12] == 'C' {
            4int
        } else {
            2int
        }
    } else if s.len() == 19 {
        if s[12] == 'C' {
            5int
        } else {
            3int
        }
    } else if s.len() == 26 {
        0int
    } else if s.len() == 28 {
        if s[22] == 'K' {
            13int
        } else {
            14int
        }
    } else if s.len() == 29 {
        if s[22] == 'K' {
            18int
        } else {
            19int
        }
    } else if s.len() == 31 {
        if s[21] == ' ' {
            if s[22] == 'K' {
                8int
            } else {
                9int
            }
        } else {
            if s[28] == 'L' {
                15int
            } else {
                21int
            }
        }
    } else if s.len() == 32 {
        if s[21] == ' ' {
            11int
        } else {
            20int
        }
    } else if s.len() == 33 {
        if s[24] == 'M' {
            12int
        } else {
            16int
        }
    } else if s.len() == 34 {
        if s[21] == ' ' {
            17int
        } else {
            10int
        }
    } else if s.len() == 35 {
        if s[21] == ' ' {
            6int
        } else {
            1int
        }
    } else {
        7int
    };
    assert forall|i: int| 0 <= i < cat.len() implies #[trigger] cat[i].precompute_filter == category_class_filter(RiskCategory::Delta, RiskClass::CsrSecCtp) by {
        if i == 0 {} else if i == 1 {} else if i == 2 {} else if i == 3 {} else if i == 4 {} else if i == 5 {} else if i == 6 {} else if i == 7 {} else if i == 8 {} else if i == 9 {} else if i == 10 {} else if i == 11 {} else if i == 12 {} else if i == 13 {} else if i == 14 {} else if i == 15 {} else if i == 16 {} else if i == 17 {} else if i == 18 {} else if i == 19 {} else if i == 20 {} else if i == 21 {}
    }
    assert forall|i: int| 0 <= i < names.len() implies #[trigger] position(names[i]) == i by {
        if i == 0 {} else if i == 1 {} else if i == 2 {} else if i == 3 {} else if i == 4 {} else if i == 5 {} else if i == 6 {} else if i == 7 {} else if i == 8 {} else if i == 9 {} else if i == 10 {} else if i == 11 {} else if i == 12 {} else if i == 13 {} else if i == 14 {} else if i == 15 {} else if i == 16 {} else if i == 17 {} else if i == 18 {} else if i == 19 {} else if i == 20 {} else if i == 21 {}
    }
    lemma_names_distinct(names, position);
    assert forall|i: int, j: int| 0 <= i < j < cat.len() implies cat[i].name != cat[j].name by {
        assert(names[i] == cat[i].name && names[j] == cat[j].name);
    }
}

/// The measures of `csrsecctp_delta_catalogue` have pairwise distinct names, and every one
/// of them is computed on the CTP delta rows.
pub proof fn lemma_csrsecctp_delta_catalogue()
    ensures
        forall|i: int| 0 <= i < csrsecctp_delta_catalogue().len() ==> #[trigger] csrsecctp_delta_catalogue()[i].precompute_filter == category_class_filter(RiskCategory::Delta, RiskClass::CsrSecCtp),
        forall|i: int, j: int|
            0 <= i < j < csrsecctp_delta_catalogue().len() ==> #[trigger] csrsecctp_delta_catalogue()[i].name != #[trigger] csrsecctp_delta_catalogue()[j].name,
{
    let cat = csrsecctp_delta_catalogue();
    reveal_strlit("CSR_secCTP_DeltaSens");
    reveal_strlit("CSR_secCTP_DeltaSens_Weighted");
    reveal_strlit("CSR_secCTP_DeltaSb");
    reveal_strlit("CSR_secCTP_DeltaKb_Low");
    reveal_strlit("CSR_secCTP_DeltaKb_Medium");
    reveal_strlit("CSR_secCTP_DeltaKb_High");
    reveal_strlit("CSR_secCTP_DeltaCharge_Low");
    reveal_strlit("CSR_secCTP_DeltaCharge_Medium");
    reveal_strlit("CSR_secCTP_DeltaCharge_High");
    reveal_strlit("CSR_secCTP_DeltaCharge_MAX");
    let names = catalogue_names(cat);
    let position = |s: Seq<char>| if s.len() == 18 {
        2int
    } else if s.len() == 20 {
        0int
    } else if s.len() == 22 {
        3int
    } else if s.len() == 23 {
        5int
    } else if s.len() == 25 {
        4int
    } else if s.len() == 26 {
        if s[23] == 'L' {
            6int
        } else {
            9int
        }
    } else if s.len() == 27 {
        8int
    } else {
        if s[16] == 'C' {
            7int
        } else {
            1int
        }
    };
    assert forall|i: int| 0 <= i < cat.len() implies #[trigger] cat[i].precompute_filter == category_class_filter(RiskCategory::Delta, RiskClass::CsrSecCtp) by {
        if i == 0 {} else if i == 1 {} else if i == 2 {} else if i == 3 {} else if i == 4 {} else if i == 5 {} else if i == 6 {} else if i == 7 {} else if i == 8 {} else if i == 9 {}
    }
    assert forall|i: int| 0 <= i < names.len() implies #[trigger] position(names[i]) == i by {
        if i == 0 {} else if i == 1 {} else if i == 2 {} else if i == 3 {} else if i == 4 {} else if i == 5 {} else if i == 6 {} else if i == 7 {} else if i == 8 {} else if i == 9 {}
    }
    lemma_names_distinct(names, position);
    assert forall|i: int, j: int| 0 <= i < j < cat.len() implies cat[i].name != cat[j].name by {
        assert(names[i] == cat[i].name && names[j] == cat[j].name);
    }
}

} // verus!
