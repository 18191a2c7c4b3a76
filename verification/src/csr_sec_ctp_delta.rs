//! Delta of the credit spread risk of the correlation trading portfolio.
use vstd::prelude::*;
use crate::jurisdiction::{bucket_column, bucket_column_spec, sens_weights_column, sens_weights_column_spec};
use crate::recipe::{
    category_class_filter, is_charge_for, fill_null_sum, measure, measure_views, Calculator, ChargeRecipe,
    MeasureExpr, MeasureSpec, MeasureView, OverrideKey, Param, PrecomputeFilter, ScenarioParam,
};
use crate::types::{
    Aggregation, CalcParams, Column, Jurisdiction, ReturnMetric, RiskCategory, RiskClass, Scenario,
};

verus! {

/// Number of CTP delta tenors (6 months, 1, 3, 5 and 10 years).
pub const CTP_TENORS: usize = 5;

/// Sensitivity column of CTP delta tenor `i`.
pub open spec fn ctp_tenor(i: int) -> Column {
    if i == 0 {
        Column::Sensitivity05Y
    } else if i == 1 {
        Column::Sensitivity1Y
    } else if i == 2 {
        Column::Sensitivity3Y
    } else if i == 3 {
        Column::Sensitivity5Y
    } else {
        Column::Sensitivity10Y
    }
}

/// Weighted CTP delta sensitivity of tenor `i`: the tenor's sensitivity
/// times item `i` of the jurisdiction's delta weights.
pub open spec fn ctp_weighted_tenor(j: Jurisdiction, i: int) -> MeasureExpr {
    MeasureExpr::TenorWeightedSens(
        RiskCategory::Delta,
        RiskClass::CsrSecCtp,
        ctp_tenor(i),
        sens_weights_column_spec(j),
        i as usize,
    )
}

/// Sensitivity column of CTP delta tenor `i`.
pub fn ctp_tenor_column(i: usize) -> (c: Column)
    requires
        i < CTP_TENORS,
    ensures
        c == ctp_tenor(i as int),
{
    match i {
        0 => Column::Sensitivity05Y,
        1 => Column::Sensitivity1Y,
        2 => Column::Sensitivity3Y,
        3 => Column::Sensitivity5Y,
        _ => Column::Sensitivity10Y,
    }
}

/// Total delta sensitivity of the CTP rows.
pub fn total_csr_sec_ctp_delta_sens(_params: &CalcParams) -> (e: MeasureExpr)
    ensures
        e == MeasureExpr::RiskClassCategorySens(
            RiskCategory::Delta,
            RiskClass::CsrSecCtp,
            Box::new(MeasureExpr::TotalDeltaSens),
        ),
{
    MeasureExpr::RiskClassCategorySens(
        RiskCategory::Delta,
        RiskClass::CsrSecCtp,
        Box::new(MeasureExpr::TotalDeltaSens),
    )
}

/// Weighted CTP delta sensitivity of tenor `i` under a jurisdiction.
pub fn csr_sec_ctp_delta_sens_weighted_tenor(j: Jurisdiction, i: usize) -> (e: MeasureExpr)
    requires
        i < CTP_TENORS,
    ensures
        e == ctp_weighted_tenor(j, i as int),
{
    MeasureExpr::TenorWeightedSens(
        RiskCategory::Delta,
        RiskClass::CsrSecCtp,
        ctp_tenor_column(i),
        sens_weights_column(j),
        i,
    )
}

/// Total weighted CTP delta under the request's jurisdiction: the weighted
/// sensitivities of the five tenors, nulls read as zero, added from 6
/// months to 10 years.
pub fn csr_sec_ctp_delta_sens_weighted(params: &CalcParams) -> (e: MeasureExpr)
    ensures
        e == fill_null_sum(|i: int| ctp_weighted_tenor(params.jurisdiction, i), CTP_TENORS as nat),
{
    let j = params.jurisdiction;
    let ghost t = |i: int| ctp_weighted_tenor(j, i);
    let mut acc = MeasureExpr::FillNullZero(Box::new(csr_sec_ctp_delta_sens_weighted_tenor(j, 0)));
    let mut i: usize = 1;
    while i < CTP_TENORS
        invariant
            1 <= i <= CTP_TENORS,
            t == (|i: int| ctp_weighted_tenor(j, i)),
            acc == fill_null_sum(t, i as nat),
        decreases CTP_TENORS - i,
    {
        let term = csr_sec_ctp_delta_sens_weighted_tenor(j, i);
        acc = MeasureExpr::Add(Box::new(acc), Box::new(MeasureExpr::FillNullZero(Box::new(term))));
        i = i + 1;
    }
    acc
}

/// Number of CTP buckets of the jurisdiction.
pub open spec fn ctp_bucket_count(j: Jurisdiction) -> usize {
    match j {
        Jurisdiction::BCBS => 16,
        Jurisdiction::CRR2 => 18,
    }
}

/// Scenario field holding the default name correlations per bucket.
pub open spec fn ctp_delta_name_rho_default(j: Jurisdiction) -> ScenarioParam {
    match j {
        Jurisdiction::BCBS => ScenarioParam::BaseCsrCtpRhoNameBcbs,
        Jurisdiction::CRR2 => ScenarioParam::BaseCsrNonSecRhoNameCrr2,
    }
}

/// Scenario field holding the default gamma.
pub open spec fn ctp_delta_gamma_default(j: Jurisdiction) -> ScenarioParam {
    match j {
        Jurisdiction::BCBS => ScenarioParam::CsrCtpGamma,
        Jurisdiction::CRR2 => ScenarioParam::CsrCtpGammaCrr2,
    }
}

/// The CTP delta charge recipe.
pub open spec fn csr_sec_ctp_delta_recipe(j: Jurisdiction, scenario: Scenario, metric: ReturnMetric) -> ChargeRecipe {
    ChargeRecipe::CsrNonSecDelta {
        scenario,
        metric,
        risk_class: RiskClass::CsrSecCtp,
        risk_category: RiskCategory::Delta,
        weights: sens_weights_column_spec(j),
        n_tenors: CTP_TENORS,
        bucket: bucket_column_spec(j),
        n_buckets: ctp_bucket_count(j),
        special_bucket: None,
        tenor_rho: Param { key: OverrideKey::BaseCsrCtpTenorRho, default: ScenarioParam::BaseCsrCtpRhoTenor },
        name_rho: Param { key: OverrideKey::BaseCsrCtpDiffNameRhoPerBucket, default: ctp_delta_name_rho_default(j) },
        basis_rho: Param { key: OverrideKey::BaseCsrCtpDiffBasisRho, default: ScenarioParam::BaseCsrNonSecRhoBasis },
        gamma: Param { key: OverrideKey::BaseCsrCtpRatingGamma, default: ctp_delta_gamma_default(j) },
    }
}

/// CTP delta charge: computed as the non-securitisation delta charge; only
/// the correlations, the gamma and the number of buckets (16 under BCBS,
/// 18 under CRR2) differ. The weights are the first five items of the
/// jurisdiction's weights column; tenor, name and basis correlations and
/// the gamma may be overridden under fixed keys.
pub fn csr_sec_ctp_delta_charge(params: &CalcParams, scenario: Scenario, metric: ReturnMetric) -> (e: MeasureExpr)
    ensures
        e == MeasureExpr::Charge(csr_sec_ctp_delta_recipe(params.jurisdiction, scenario, metric)),
        is_charge_for(e, scenario, metric, RiskClass::CsrSecCtp),
{
    let j = params.jurisdiction;
    let (name_rho, gamma, n_buckets) = match j {
        Jurisdiction::BCBS => (ScenarioParam::BaseCsrCtpRhoNameBcbs, ScenarioParam::CsrCtpGamma, 16usize),
        Jurisdiction::CRR2 => (ScenarioParam::BaseCsrNonSecRhoNameCrr2, ScenarioParam::CsrCtpGammaCrr2, 18usize),
    };
    MeasureExpr::Charge(ChargeRecipe::CsrNonSecDelta {
        scenario,
        metric,
        risk_class: RiskClass::CsrSecCtp,
        risk_category: RiskCategory::Delta,
        weights: sens_weights_column(j),
        n_tenors: CTP_TENORS,
        bucket: bucket_column(j),
        n_buckets,
        special_bucket: None,
        tenor_rho: Param { key: OverrideKey::BaseCsrCtpTenorRho, default: ScenarioParam::BaseCsrCtpRhoTenor },
        name_rho: Param { key: OverrideKey::BaseCsrCtpDiffNameRhoPerBucket, default: name_rho },
        basis_rho: Param { key: OverrideKey::BaseCsrCtpDiffBasisRho, default: ScenarioParam::BaseCsrNonSecRhoBasis },
        gamma: Param { key: OverrideKey::BaseCsrCtpRatingGamma, default: gamma },
    })
}

/// The largest of the three scenarios' CTP delta capital charges (an
/// analysis view, not a regulatory measure).
pub fn csrsecctp_delta_max(_params: &CalcParams) -> (e: MeasureExpr)
    ensures
        e == MeasureExpr::Max([
            Calculator::CsrSecCtpDelta(Scenario::Low, ReturnMetric::CapitalCharge),
            Calculator::CsrSecCtpDelta(Scenario::Medium, ReturnMetric::CapitalCharge),
            Calculator::CsrSecCtpDelta(Scenario::High, ReturnMetric::CapitalCharge),
        ]),
{
    MeasureExpr::Max([
        Calculator::CsrSecCtpDelta(Scenario::Low, ReturnMetric::CapitalCharge),
        Calculator::CsrSecCtpDelta(Scenario::Medium, ReturnMetric::CapitalCharge),
        Calculator::CsrSecCtpDelta(Scenario::High, ReturnMetric::CapitalCharge),
    ])
}

/// A CTP delta measure: computed on the CTP delta rows.
pub open spec fn ctp_delta_entry(name: Seq<char>, calculator: Calculator, aggregation: Option<Aggregation>) -> MeasureView {
    MeasureView {
        name,
        calculator,
        aggregation,
        precompute_filter: category_class_filter(RiskCategory::Delta, RiskClass::CsrSecCtp),
    }
}

/// A scenario's CTP delta result, aggregated by taking the first value.
pub open spec fn ctp_delta_scenario_entry(name: Seq<char>, scenario: Scenario, metric: ReturnMetric) -> MeasureView {
    ctp_delta_entry(name, Calculator::CsrSecCtpDelta(scenario, metric), Some(Aggregation::First))
}

/// The CTP delta measures, in the order they are offered. The bucket sum
/// `Sb` is offered once, computed in the low scenario.
pub open spec fn csrsecctp_delta_catalogue() -> Seq<MeasureView> {
    seq![
        ctp_delta_entry("CSR_secCTP_DeltaSens"@, Calculator::TotalCsrSecCtpDeltaSens, None),
        ctp_delta_entry("CSR_secCTP_DeltaSens_Weighted"@, Calculator::CsrSecCtpDeltaSensWeighted, None),
        ctp_delta_scenario_entry("CSR_secCTP_DeltaSb"@, Scenario::Low, ReturnMetric::Sb),
        ctp_delta_scenario_entry("CSR_secCTP_DeltaKb_Low"@, Scenario::Low, ReturnMetric::Kb),
        ctp_delta_scenario_entry("CSR_secCTP_DeltaKb_Medium"@, Scenario::Medium, ReturnMetric::Kb),
        ctp_delta_scenario_entry("CSR_secCTP_DeltaKb_High"@, Scenario::High, ReturnMetric::Kb),
        ctp_delta_scenario_entry("CSR_secCTP_DeltaCharge_Low"@, Scenario::Low, ReturnMetric::CapitalCharge),
        ctp_delta_scenario_entry("CSR_secCTP_DeltaCharge_Medium"@, Scenario::Medium, ReturnMetric::CapitalCharge),
        ctp_delta_scenario_entry("CSR_secCTP_DeltaCharge_High"@, Scenario::High, ReturnMetric::CapitalCharge),
        ctp_delta_entry("CSR_secCTP_DeltaCharge_MAX"@, Calculator::CsrSecCtpDeltaMax, Some(Aggregation::First)),
    ]
}

/// The CTP delta measures.
pub fn csrsecctp_delta_measures() -> (res: Vec<MeasureSpec>)
    ensures
        measure_views(res@) == csrsecctp_delta_catalogue(),
{
    let f = Some(PrecomputeFilter { risk_category: Some(RiskCategory::Delta), risk_class: RiskClass::CsrSecCtp });
    let first = Some(Aggregation::First);
    let mut res: Vec<MeasureSpec> = Vec::new();
    res.push(measure("CSR_secCTP_DeltaSens", Calculator::TotalCsrSecCtpDeltaSens, None, f));
    res.push(measure("CSR_secCTP_DeltaSens_Weighted", Calculator::CsrSecCtpDeltaSensWeighted, None, f));
    res.push(measure("CSR_secCTP_DeltaSb", Calculator::CsrSecCtpDelta(Scenario::Low, ReturnMetric::Sb), first, f));
    res.push(measure("CSR_secCTP_DeltaKb_Low", Calculator::CsrSecCtpDelta(Scenario::Low, ReturnMetric::Kb), first, f));
    res.push(measure("CSR_secCTP_DeltaKb_Medium", Calculator::CsrSecCtpDelta(Scenario::Medium, ReturnMetric::Kb), first, f));
    res.push(measure("CSR_secCTP_DeltaKb_High", Calculator::CsrSecCtpDelta(Scenario::High, ReturnMetric::Kb), first, f));
    res.push(measure("CSR_secCTP_DeltaCharge_Low", Calculator::CsrSecCtpDelta(Scenario::Low, ReturnMetric::CapitalCharge), first, f));
    res.push(measure("CSR_secCTP_DeltaCharge_Medium", Calculator::CsrSecCtpDelta(Scenario::Medium, ReturnMetric::CapitalCharge), first, f));
    res.push(measure("CSR_secCTP_DeltaCharge_High", Calculator::CsrSecCtpDelta(Scenario::High, ReturnMetric::CapitalCharge), first, f));
    res.push(measure("CSR_secCTP_DeltaCharge_MAX", Calculator::CsrSecCtpDeltaMax, first, f));
    assert(measure_views(res@) =~= csrsecctp_delta_catalogue());
    res
}

} // verus!
