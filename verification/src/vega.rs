//! Vega of commodities and of securitisations outside the correlation
//! trading portfolio; both are computed as the equity vega charge.
use vstd::prelude::*;
use crate::recipe::{
    category_class_filter, is_charge_for, measure, measure_views, Calculator, ChargeRecipe, MeasureExpr,
    MeasureSpec, MeasureView, OverrideKey, Param, ScenarioParam,
};
use crate::types::{
    Aggregation, CalcParams, Column, ReturnMetric, RiskCategory, RiskClass, Scenario,
};

verus! {

/// Total vega sensitivity of the commodity rows.
pub open spec fn total_com_vega_sens_expr() -> MeasureExpr {
    MeasureExpr::RiskClassCategorySens(
        RiskCategory::Vega,
        RiskClass::Commodity,
        Box::new(MeasureExpr::TotalVegaCurvSens),
    )
}

/// Total vega sensitivity of the commodity rows.
pub fn total_com_vega_sens(_params: &CalcParams) -> (e: MeasureExpr)
    ensures
        e == total_com_vega_sens_expr(),
{
    MeasureExpr::RiskClassCategorySens(
        RiskCategory::Vega,
        RiskClass::Commodity,
        Box::new(MeasureExpr::TotalVegaCurvSens),
    )
}

/// Commodity vega sensitivity times the first item of `SensWeights`.
pub fn total_com_vega_sens_weighted(params: &CalcParams) -> (e: MeasureExpr)
    ensures
        e == MeasureExpr::Mul(
            Box::new(total_com_vega_sens_expr()),
            Box::new(MeasureExpr::ListItem(Column::SensWeights, 0)),
        ),
{
    MeasureExpr::Mul(
        Box::new(total_com_vega_sens(params)),
        Box::new(MeasureExpr::ListItem(Column::SensWeights, 0)),
    )
}

/// The commodity vega charge recipe of a scenario and return metric.
pub open spec fn com_vega_recipe(scenario: Scenario, metric: ReturnMetric) -> ChargeRecipe {
    ChargeRecipe::EquityVega {
        scenario,
        metric,
        risk_class: RiskClass::Commodity,
        special_bucket: None,
        vega_rho: Param { key: OverrideKey::CommodityBaseOptMatVegaRho, default: ScenarioParam::BaseVegaRho },
        gamma: Param { key: OverrideKey::CommodityDeltaGamma, default: ScenarioParam::ComGamma },
        bucket_rho: Param {
            key: OverrideKey::CommodityBaseDeltaRhoBucket,
            default: ScenarioParam::BaseComDeltaRhoCty,
        },
    }
}

/// Commodity vega charge: the equity vega calculation over commodity rows,
/// with no special bucket, whose option maturity correlation, gamma and
/// bucket correlation the request may override under the per-scenario
/// keys `commodity_base_opt_mat_vega_rho`, `commodity_delta_gamma` and
/// `commodity_base_delta_rho_bucket`.
pub fn com_vega_charge(_params: &CalcParams, scenario: Scenario, metric: ReturnMetric) -> (e: MeasureExpr)
    ensures
        e == MeasureExpr::Charge(com_vega_recipe(scenario, metric)),
        is_charge_for(e, scenario, metric, RiskClass::Commodity),
{
    MeasureExpr::Charge(ChargeRecipe::EquityVega {
        scenario,
        metric,
        risk_class: RiskClass::Commodity,
        special_bucket: None,
        vega_rho: Param { key: OverrideKey::CommodityBaseOptMatVegaRho, default: ScenarioParam::BaseVegaRho },
        gamma: Param { key: OverrideKey::CommodityDeltaGamma, default: ScenarioParam::ComGamma },
        bucket_rho: Param {
            key: OverrideKey::CommodityBaseDeltaRhoBucket,
            default: ScenarioParam::BaseComDeltaRhoCty,
        },
    })
}

/// Total vega sensitivity of the securitisation (non-CTP) rows.
pub open spec fn total_csr_sec_nonctp_vega_sens_expr() -> MeasureExpr {
    MeasureExpr::RiskClassCategorySens(
        RiskCategory::Vega,
        RiskClass::CsrSecNonCtp,
        Box::new(MeasureExpr::TotalVegaCurvSens),
    )
}

/// Total vega sensitivity of the securitisation (non-CTP) rows.
pub fn total_csr_sec_nonctp_vega_sens(_params: &CalcParams) -> (e: MeasureExpr)
    ensures
        e == total_csr_sec_nonctp_vega_sens_expr(),
{
    MeasureExpr::RiskClassCategorySens(
        RiskCategory::Vega,
        RiskClass::CsrSecNonCtp,
        Box::new(MeasureExpr::TotalVegaCurvSens),
    )
}

/// Securitisation (non-CTP) vega sensitivity times the first item of
/// `SensWeights`.
pub fn total_csr_sec_nonctp_vega_sens_weighted(params: &CalcParams) -> (e: MeasureExpr)
    ensures
        e == MeasureExpr::Mul(
            Box::new(total_csr_sec_nonctp_vega_sens_expr()),
            Box::new(MeasureExpr::ListItem(Column::SensWeights, 0)),
        ),
{
    MeasureExpr::Mul(
        Box::new(total_csr_sec_nonctp_vega_sens(params)),
        Box::new(MeasureExpr::ListItem(Column::SensWeights, 0)),
    )
}

/// The securitisation (non-CTP) vega charge recipe.
pub open spec fn csr_sec_nonctp_vega_recipe(scenario: Scenario, metric: ReturnMetric) -> ChargeRecipe {
    ChargeRecipe::EquityVega {
        scenario,
        metric,
        risk_class: RiskClass::CsrSecNonCtp,
        special_bucket: Some("25"),
        vega_rho: Param {
            key: OverrideKey::BaseCsrSecNonCtpOptMatVegaRho,
            default: ScenarioParam::BaseVegaRho,
        },
        gamma: Param { key: OverrideKey::CsrSecNonCtpVegaGamma, default: ScenarioParam::CsrSecNonCtpGamma },
        bucket_rho: Param {
            key: OverrideKey::BaseCsrSecNonCtpRhoDiffNameBucket,
            default: ScenarioParam::BaseCsrSecNonCtpRhoDiffName,
        },
    }
}

/// Securitisation (non-CTP) vega charge: the equity vega calculation with
/// bucket `25` as the special bucket; the gamma may be overridden under the
/// per-scenario key `csr_sec_nonctp_vega_gamma`, the name correlation and
/// the option maturity correlation under fixed keys.
pub fn csr_sec_nonctp_vega_charge(_params: &CalcParams, scenario: Scenario, metric: ReturnMetric) -> (e: MeasureExpr)
    ensures
        e == MeasureExpr::Charge(csr_sec_nonctp_vega_recipe(scenario, metric)),
        is_charge_for(e, scenario, metric, RiskClass::CsrSecNonCtp),
{
    MeasureExpr::Charge(ChargeRecipe::EquityVega {
        scenario,
        metric,
        risk_class: RiskClass::CsrSecNonCtp,
        special_bucket: Some("25"),
        vega_rho: Param {
            key: OverrideKey::BaseCsrSecNonCtpOptMatVegaRho,
            default: ScenarioParam::BaseVegaRho,
        },
        gamma: Param { key: OverrideKey::CsrSecNonCtpVegaGamma, default: ScenarioParam::CsrSecNonCtpGamma },
        bucket_rho: Param {
            key: OverrideKey::BaseCsrSecNonCtpRhoDiffNameBucket,
            default: ScenarioParam::BaseCsrSecNonCtpRhoDiffName,
        },
    })
}

/// A commodity vega measure: computed on the commodity vega rows.
pub open spec fn com_vega_entry(name: Seq<char>, calculator: Calculator, aggregation: Option<Aggregation>) -> MeasureView {
    MeasureView {
        name,
        calculator,
        aggregation,
        precompute_filter: category_class_filter(RiskCategory::Vega, RiskClass::Commodity),
    }
}

/// The commodity vega measures, in the order they are offered.
pub open spec fn com_vega_catalogue() -> Seq<MeasureView> {
    seq![
        com_vega_entry("Commodity_VegaSens"@, Calculator::TotalComVegaSens, None),
        com_vega_entry("Commodity_VegaSens_Weighted"@, Calculator::TotalComVegaSensWeighted, None),
        com_vega_entry("Commodity_VegaSb"@, Calculator::ComVega(Scenario::Medium, ReturnMetric::Sb), Some(Aggregation::First)),
        com_vega_entry("Commodity_VegaKb_Low"@, Calculator::ComVega(Scenario::Low, ReturnMetric::Kb), Some(Aggregation::First)),
        com_vega_entry("Commodity_VegaCharge_Low"@, Calculator::ComVega(Scenario::Low, ReturnMetric::CapitalCharge), Some(Aggregation::First)),
        com_vega_entry("Commodity_VegaKb_Medium"@, Calculator::ComVega(Scenario::Medium, ReturnMetric::Kb), Some(Aggregation::First)),
        com_vega_entry("Commodity_VegaCharge_Medium"@, Calculator::ComVega(Scenario::Medium, ReturnMetric::CapitalCharge), Some(Aggregation::First)),
        com_vega_entry("Commodity_VegaKb_High"@, Calculator::ComVega(Scenario::High, ReturnMetric::Kb), Some(Aggregation::First)),
        com_vega_entry("Commodity_VegaCharge_High"@, Calculator::ComVega(Scenario::High, ReturnMetric::CapitalCharge), Some(Aggregation::First)),
    ]
}

/// The commodity vega measures.
pub fn com_vega_measures() -> (res: Vec<MeasureSpec>)
    ensures
        measure_views(res@) == com_vega_catalogue(),
{
    let f = Some(crate::recipe::PrecomputeFilter { risk_category: Some(RiskCategory::Vega), risk_class: RiskClass::Commodity });
    let first = Some(Aggregation::First);
    let mut res: Vec<MeasureSpec> = Vec::new();
    res.push(measure("Commodity_VegaSens", Calculator::TotalComVegaSens, None, f));
    res.push(measure("Commodity_VegaSens_Weighted", Calculator::TotalComVegaSensWeighted, None, f));
    res.push(measure("Commodity_VegaSb", Calculator::ComVega(Scenario::Medium, ReturnMetric::Sb), first, f));
    res.push(measure("Commodity_VegaKb_Low", Calculator::ComVega(Scenario::Low, ReturnMetric::Kb), first, f));
    res.push(measure("Commodity_VegaCharge_Low", Calculator::ComVega(Scenario::Low, ReturnMetric::CapitalCharge), first, f));
    res.push(measure("Commodity_VegaKb_Medium", Calculator::ComVega(Scenario::Medium, ReturnMetric::Kb), first, f));
    res.push(measure("Commodity_VegaCharge_Medium", Calculator::ComVega(Scenario::Medium, ReturnMetric::CapitalCharge), first, f));
    res.push(measure("Commodity_VegaKb_High", Calculator::ComVega(Scenario::High, ReturnMetric::Kb), first, f));
    res.push(measure("Commodity_VegaCharge_High", Calculator::ComVega(Scenario::High, ReturnMetric::CapitalCharge), first, f));
    assert(measure_views(res@) =~= com_vega_catalogue());
    res
}

} // verus!
