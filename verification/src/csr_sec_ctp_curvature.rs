//! Curvature of the credit spread risk of the correlation trading portfolio.
use vstd::prelude::*;
use crate::jurisdiction::{bucket_column, bucket_column_spec, curvature_weight_column, curvature_weight_column_spec};
use crate::recipe::{
    category_class_filter, is_charge_for, measure, measure_views, Calculator, ChargeRecipe, MeasureExpr,
    MeasureSpec, MeasureView, OverrideKey, Param, PrecomputeFilter, ScenarioParam,
};
use crate::types::{
    Aggregation, CalcParams, Column, Cvr, Jurisdiction, ReturnMetric, RiskCategory, RiskClass,
    Scenario,
};

verus! {

/// Curvature delta of the CTP rows.
pub fn csrsecctp_curv_delta(_params: &CalcParams) -> (e: MeasureExpr)
    ensures
        e == MeasureExpr::CurvDelta5(RiskClass::CsrSecCtp),
{
    MeasureExpr::CurvDelta5(RiskClass::CsrSecCtp)
}

/// Curvature delta of the CTP rows times the curvature risk weight of the
/// request's jurisdiction.
pub fn csrsecctp_curv_delta_weighted(params: &CalcParams) -> (e: MeasureExpr)
    ensures
        e == MeasureExpr::Mul(
            Box::new(MeasureExpr::CurvDelta5(RiskClass::CsrSecCtp)),
            Box::new(MeasureExpr::Column(curvature_weight_column_spec(params.jurisdiction))),
        ),
{
    MeasureExpr::Mul(
        Box::new(csrsecctp_curv_delta(params)),
        Box::new(MeasureExpr::Column(curvature_weight_column(params.jurisdiction))),
    )
}

/// Downward curvature risk of the CTP rows.
pub fn csrsecctp_cvr_down(_params: &CalcParams) -> (e: MeasureExpr)
    ensures
        e == MeasureExpr::Cvr5(RiskClass::CsrSecCtp, Cvr::Down),
{
    MeasureExpr::Cvr5(RiskClass::CsrSecCtp, Cvr::Down)
}

/// Upward curvature risk of the CTP rows.
pub fn csrsecctp_cvr_up(_params: &CalcParams) -> (e: MeasureExpr)
    ensures
        e == MeasureExpr::Cvr5(RiskClass::CsrSecCtp, Cvr::Up),
{
    MeasureExpr::Cvr5(RiskClass::CsrSecCtp, Cvr::Up)
}

/// `PnL_Up` of the CTP delta rows.
pub fn csrsecctp_pnl_up(_params: &CalcParams) -> (e: MeasureExpr)
    ensures
        e == MeasureExpr::RiskClassCategorySens(
            RiskCategory::Delta,
            RiskClass::CsrSecCtp,
            Box::new(MeasureExpr::Column(Column::PnlUp)),
        ),
{
    MeasureExpr::RiskClassCategorySens(
        RiskCategory::Delta,
        RiskClass::CsrSecCtp,
        Box::new(MeasureExpr::Column(Column::PnlUp)),
    )
}

/// `PnL_Down` of the CTP delta rows.
pub fn csrsecctp_pnl_down(_params: &CalcParams) -> (e: MeasureExpr)
    ensures
        e == MeasureExpr::RiskClassCategorySens(
            RiskCategory::Delta,
            RiskClass::CsrSecCtp,
            Box::new(MeasureExpr::Column(Column::PnlDown)),
        ),
{
    MeasureExpr::RiskClassCategorySens(
        RiskCategory::Delta,
        RiskClass::CsrSecCtp,
        Box::new(MeasureExpr::Column(Column::PnlDown)),
    )
}

/// Scenario field holding the default name correlations per bucket.
pub open spec fn ctp_curv_name_rho_default(j: Jurisdiction) -> ScenarioParam {
    match j {
        Jurisdiction::BCBS => ScenarioParam::CsrCtpCurvDiffNameRhoPerBucketBcbs,
        Jurisdiction::CRR2 => ScenarioParam::CsrCtpCurvDiffNameRhoPerBucketCrr2,
    }
}

/// Scenario field holding the default curvature gamma.
pub open spec fn ctp_curv_gamma_default(j: Jurisdiction) -> ScenarioParam {
    match j {
        Jurisdiction::BCBS => ScenarioParam::CsrCtpCurvGammaBcbs,
        Jurisdiction::CRR2 => ScenarioParam::CsrCtpCurvGammaCrr2,
    }
}

/// The CTP curvature charge recipe.
pub open spec fn csrsecctp_curvature_recipe(j: Jurisdiction, scenario: Scenario, metric: ReturnMetric) -> ChargeRecipe {
    ChargeRecipe::CsrNonSecCurvature {
        scenario,
        metric,
        risk_class: RiskClass::CsrSecCtp,
        weight: curvature_weight_column_spec(j),
        bucket: bucket_column_spec(j),
        special_bucket: None,
        name_rho: Param { key: OverrideKey::CsrCtpCurvDiffNameRhoPerBucket, default: ctp_curv_name_rho_default(j) },
        gamma: Param { key: OverrideKey::CsrCtpCurvGamma, default: ctp_curv_gamma_default(j) },
    }
}

/// CTP curvature charge: computed as the non-securitisation curvature
/// charge with the jurisdiction's curvature weight and bucket columns, no
/// special bucket, and the jurisdiction's name correlations and gamma,
/// which the request may override under the per-scenario keys
/// `csr_ctp_curv_diff_name_rho_per_bucket` and `csr_ctp_curv_gamma`.
pub fn csrsecctp_curvature_charge(params: &CalcParams, scenario: Scenario, metric: ReturnMetric) -> (e: MeasureExpr)
    ensures
        e == MeasureExpr::Charge(csrsecctp_curvature_recipe(params.jurisdiction, scenario, metric)),
        is_charge_for(e, scenario, metric, RiskClass::CsrSecCtp),
{
    let j = params.jurisdiction;
    let (name_rho, gamma) = match j {
        Jurisdiction::BCBS => (ScenarioParam::CsrCtpCurvDiffNameRhoPerBucketBcbs, ScenarioParam::CsrCtpCurvGammaBcbs),
        Jurisdiction::CRR2 => (ScenarioParam::CsrCtpCurvDiffNameRhoPerBucketCrr2, ScenarioParam::CsrCtpCurvGammaCrr2),
    };
    MeasureExpr::Charge(ChargeRecipe::CsrNonSecCurvature {
        scenario,
        metric,
        risk_class: RiskClass::CsrSecCtp,
        weight: curvature_weight_column(j),
        bucket: bucket_column(j),
        special_bucket: None,
        name_rho: Param { key: OverrideKey::CsrCtpCurvDiffNameRhoPerBucket, default: name_rho },
        gamma: Param { key: OverrideKey::CsrCtpCurvGamma, default: gamma },
    })
}

/// The largest of the three scenarios' CTP curvature capital charges (an
/// analysis view, not a regulatory measure).
pub fn csrsecctp_curv_max(_params: &CalcParams) -> (e: MeasureExpr)
    ensures
        e == MeasureExpr::Max([
            Calculator::CsrSecCtpCurvature(Scenario::Low, ReturnMetric::CapitalCharge),
            Calculator::CsrSecCtpCurvature(Scenario::Medium, ReturnMetric::CapitalCharge),
            Calculator::CsrSecCtpCurvature(Scenario::High, ReturnMetric::CapitalCharge),
        ]),
{
    MeasureExpr::Max([
        Calculator::CsrSecCtpCurvature(Scenario::Low, ReturnMetric::CapitalCharge),
        Calculator::CsrSecCtpCurvature(Scenario::Medium, ReturnMetric::CapitalCharge),
        Calculator::CsrSecCtpCurvature(Scenario::High, ReturnMetric::CapitalCharge),
    ])
}

/// A CTP curvature measure: computed on the CTP delta rows.
pub open spec fn ctp_curv_entry(name: Seq<char>, calculator: Calculator, aggregation: Option<Aggregation>) -> MeasureView {
    MeasureView {
        name,
        calculator,
        aggregation,
        precompute_filter: category_class_filter(RiskCategory::Delta, RiskClass::CsrSecCtp),
    }
}

/// A scenario's CTP curvature result, aggregated as a scalar.
pub open spec fn ctp_curv_scenario_entry(name: Seq<char>, scenario: Scenario, metric: ReturnMetric) -> MeasureView {
    ctp_curv_entry(name, Calculator::CsrSecCtpCurvature(scenario, metric), Some(Aggregation::Scalar))
}

/// The CTP curvature measures, in the order they are offered.
pub open spec fn csrsecctp_curv_catalogue() -> Seq<MeasureView> {
    seq![
        ctp_curv_entry("CSR Sec CTP CurvatureDelta"@, Calculator::CsrSecCtpCurvDelta, None),
        ctp_curv_entry("CSR Sec CTP CurvatureDelta_Weighted"@, Calculator::CsrSecCtpCurvDeltaWeighted, None),
        ctp_curv_entry("CSR Sec CTP PnLup"@, Calculator::CsrSecCtpPnlUp, None),
        ctp_curv_entry("CSR Sec CTP PnLdown"@, Calculator::CsrSecCtpPnlDown, None),
        ctp_curv_entry("CSR Sec CTP CVRup"@, Calculator::CsrSecCtpCvrUp, None),
        ctp_curv_entry("CSR Sec CTP CVRdown"@, Calculator::CsrSecCtpCvrDown, None),
        ctp_curv_scenario_entry("CSR Sec CTP Curvature KbPlus Medium"@, Scenario::Medium, ReturnMetric::KbPlus),
        ctp_curv_scenario_entry("CSR Sec CTP Curvature KbMinus Medium"@, Scenario::Medium, ReturnMetric::KbMinus),
        ctp_curv_scenario_entry("CSR Sec CTP Curvature Kb Medium"@, Scenario::Medium, ReturnMetric::Kb),
        ctp_curv_scenario_entry("CSR Sec CTP Curvature Sb Medium"@, Scenario::Medium, ReturnMetric::Sb),
        ctp_curv_scenario_entry("CSR Sec CTP CurvatureCharge Medium"@, Scenario::Medium, ReturnMetric::CapitalCharge),
        ctp_curv_scenario_entry("CSR Sec CTP Curvature KbPlus Low"@, Scenario::Low, ReturnMetric::KbPlus),
        ctp_curv_scenario_entry("CSR Sec CTP Curvature KbMinus Low"@, Scenario::Low, ReturnMetric::KbMinus),
        ctp_curv_scenario_entry("CSR Sec CTP Curvature Kb Low"@, Scenario::Low, ReturnMetric::Kb),
        ctp_curv_scenario_entry("CSR Sec CTP Curvature Sb Low"@, Scenario::Low, ReturnMetric::Sb),
        ctp_curv_scenario_entry("CSR Sec CTP CurvatureCharge Low"@, Scenario::Low, ReturnMetric::CapitalCharge),
        ctp_curv_scenario_entry("CSR Sec CTP Curvature KbPlus High"@, Scenario::High, ReturnMetric::KbPlus),
        ctp_curv_scenario_entry("CSR Sec CTP Curvature KbMinus High"@, Scenario::High, ReturnMetric::KbMinus),
        ctp_curv_scenario_entry("CSR Sec CTP Curvature Kb High"@, Scenario::High, ReturnMetric::Kb),
        ctp_curv_scenario_entry("CSR Sec CTP Curvature Sb High"@, Scenario::High, ReturnMetric::Sb),
        ctp_curv_scenario_entry("CSR Sec CTP CurvatureCharge High"@, Scenario::High, ReturnMetric::CapitalCharge),
        ctp_curv_entry("CSR Sec CTP CurvatureCharge MAX"@, Calculator::CsrSecCtpCurvMax, Some(Aggregation::Scalar)),
    ]
}

/// The CTP curvature measures.
#[verifier::rlimit(40)]
pub fn csrsecctp_curv_measures() -> (res: Vec<MeasureSpec>)
    ensures
        measure_views(res@) == csrsecctp_curv_catalogue(),
{
    let f = Some(PrecomputeFilter { risk_category: Some(RiskCategory::Delta), risk_class: RiskClass::CsrSecCtp });
    let sc = Some(Aggregation::Scalar);
    let mut res: Vec<MeasureSpec> = Vec::new();
    res.push(measure("CSR Sec CTP CurvatureDelta", Calculator::CsrSecCtpCurvDelta, None, f));
    res.push(measure("CSR Sec CTP CurvatureDelta_Weighted", Calculator::CsrSecCtpCurvDeltaWeighted, None, f));
    res.push(measure("CSR Sec CTP PnLup", Calculator::CsrSecCtpPnlUp, None, f));
    res.push(measure("CSR Sec CTP PnLdown", Calculator::CsrSecCtpPnlDown, None, f));
    res.push(measure("CSR Sec CTP CVRup", Calculator::CsrSecCtpCvrUp, None, f));
    res.push(measure("CSR Sec CTP CVRdown", Calculator::CsrSecCtpCvrDown, None, f));
    res.push(measure("CSR Sec CTP Curvature KbPlus Medium", Calculator::CsrSecCtpCurvature(Scenario::Medium, ReturnMetric::KbPlus), sc, f));
    res.push(measure("CSR Sec CTP Curvature KbMinus Medium", Calculator::CsrSecCtpCurvature(Scenario::Medium, ReturnMetric::KbMinus), sc, f));
    res.push(measure("CSR Sec CTP Curvature Kb Medium", Calculator::CsrSecCtpCurvature(Scenario::Medium, ReturnMetric::Kb), sc, f));
    res.push(measure("CSR Sec CTP Curvature Sb Medium", Calculator::CsrSecCtpCurvature(Scenario::Medium, ReturnMetric::Sb), sc, f));
    res.push(measure("CSR Sec CTP CurvatureCharge Medium", Calculator::CsrSecCtpCurvature(Scenario::Medium, ReturnMetric::CapitalCharge), sc, f));
    res.push(measure("CSR Sec CTP Curvature KbPlus Low", Calculator::CsrSecCtpCurvature(Scenario::Low, ReturnMetric::KbPlus), sc, f));
    res.push(measure("CSR Sec CTP Curvature KbMinus Low", Calculator::CsrSecCtpCurvature(Scenario::Low, ReturnMetric::KbMinus), sc, f));
    res.push(measure("CSR Sec CTP Curvature Kb Low", Calculator::CsrSecCtpCurvature(Scenario::Low, ReturnMetric::Kb), sc, f));
    res.push(measure("CSR Sec CTP Curvature Sb Low", Calculator::CsrSecCtpCurvature(Scenario::Low, ReturnMetric::Sb), sc, f));
    res.push(measure("CSR Sec CTP CurvatureCharge Low", Calculator::CsrSecCtpCurvature(Scenario::Low, ReturnMetric::CapitalCharge), sc, f));
    res.push(measure("CSR Sec CTP Curvature KbPlus High", Calculator::CsrSecCtpCurvature(Scenario::High, ReturnMetric::KbPlus), sc, f));
    res.push(measure("CSR Sec CTP Curvature KbMinus High", Calculator::CsrSecCtpCurvature(Scenario::High, ReturnMetric::KbMinus), sc, f));
    res.push(measure("CSR Sec CTP Curvature Kb High", Calculator::CsrSecCtpCurvature(Scenario::High, ReturnMetric::Kb), sc, f));
    res.push(measure("CSR Sec CTP Curvature Sb High", Calculator::CsrSecCtpCurvature(Scenario::High, ReturnMetric::Sb), sc, f));
    res.push(measure("CSR Sec CTP CurvatureCharge High", Calculator::CsrSecCtpCurvature(Scenario::High, ReturnMetric::CapitalCharge), sc, f));
    res.push(measure("CSR Sec CTP CurvatureCharge MAX", Calculator::CsrSecCtpCurvMax, sc, f));
    assert(measure_views(res@) =~= csrsecctp_curv_catalogue());
    res
}

} // verus!
