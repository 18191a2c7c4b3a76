//! Commodity delta: sensitivities, weighted sensitivities and the charge.
use vstd::prelude::*;
use crate::recipe::{fill_null_sum, recipe_scenario, ChargeRecipe, MeasureExpr, OverrideKey, Param, ScenarioParam};
use crate::types::{CalcParams, Column, RiskCategory, RiskClass, Scenario};

verus! {

/// Number of commodity delta tenors (spot and ten maturities).
pub const COMMODITY_TENORS: usize = 11;

/// Sensitivity column of commodity delta tenor `i`.
pub open spec fn commodity_tenor(i: int) -> Column {
    if i == 0 {
        Column::SensitivitySpot
    } else if i == 1 {
        Column::Sensitivity025Y
    } else if i == 2 {
        Column::Sensitivity05Y
    } else if i == 3 {
        Column::Sensitivity1Y
    } else if i == 4 {
        Column::Sensitivity2Y
    } else if i == 5 {
        Column::Sensitivity3Y
    } else if i == 6 {
        Column::Sensitivity5Y
    } else if i == 7 {
        Column::Sensitivity10Y
    } else if i == 8 {
        Column::Sensitivity15Y
    } else if i == 9 {
        Column::Sensitivity20Y
    } else {
        Column::Sensitivity30Y
    }
}

/// Weighted commodity delta sensitivity of tenor `i`: the tenor's
/// sensitivity times item `i` of `SensWeights`.
pub open spec fn commodity_weighted_tenor(i: int) -> MeasureExpr {
    MeasureExpr::TenorWeightedSens(
        RiskCategory::Delta,
        RiskClass::Commodity,
        commodity_tenor(i),
        Column::SensWeights,
        i as usize,
    )
}

/// Sensitivity column of commodity delta tenor `i`.
pub fn commodity_tenor_column(i: usize) -> (c: Column)
    requires
        i < COMMODITY_TENORS,
    ensures
        c == commodity_tenor(i as int),
{
    match i {
        0 => Column::SensitivitySpot,
        1 => Column::Sensitivity025Y,
        2 => Column::Sensitivity05Y,
        3 => Column::Sensitivity1Y,
        4 => Column::Sensitivity2Y,
        5 => Column::Sensitivity3Y,
        6 => Column::Sensitivity5Y,
        7 => Column::Sensitivity10Y,
        8 => Column::Sensitivity15Y,
        9 => Column::Sensitivity20Y,
        _ => Column::Sensitivity30Y,
    }
}

/// Total commodity delta sensitivity of each row.
pub fn total_commodity_delta_sens(_params: &CalcParams) -> (e: MeasureExpr)
    ensures
        e == MeasureExpr::RiskClassDeltaSens(RiskClass::Commodity),
{
    MeasureExpr::RiskClassDeltaSens(RiskClass::Commodity)
}

/// Weighted commodity delta sensitivity of tenor `i`.
pub fn commodity_delta_sens_weighted_tenor(i: usize) -> (e: MeasureExpr)
    requires
        i < COMMODITY_TENORS,
    ensures
        e == commodity_weighted_tenor(i as int),
{
    MeasureExpr::TenorWeightedSens(
        RiskCategory::Delta,
        RiskClass::Commodity,
        commodity_tenor_column(i),
        Column::SensWeights,
        i,
    )
}

/// Total weighted commodity delta: the weighted sensitivities of the
/// eleven tenors, nulls read as zero, added from spot to 30 years.
pub fn commodity_delta_sens_weighted(_params: &CalcParams) -> (e: MeasureExpr)
    ensures
        e == fill_null_sum(|i: int| commodity_weighted_tenor(i), COMMODITY_TENORS as nat),
{
    let ghost t = |i: int| commodity_weighted_tenor(i);
    let mut acc = MeasureExpr::FillNullZero(Box::new(commodity_delta_sens_weighted_tenor(0)));
    let mut i: usize = 1;
    while i < COMMODITY_TENORS
        invariant
            1 <= i <= COMMODITY_TENORS,
            t == (|i: int| commodity_weighted_tenor(i)),
            acc == fill_null_sum(t, i as nat),
        decreases COMMODITY_TENORS - i,
    {
        let term = commodity_delta_sens_weighted_tenor(i);
        acc = MeasureExpr::Add(Box::new(acc), Box::new(MeasureExpr::FillNullZero(Box::new(term))));
        i = i + 1;
    }
    acc
}

/// The columns that the commodity delta charge reads, in order: risk
/// class, risk factor, location, BCBS bucket, then the weighted
/// sensitivities of the eleven tenors.
pub open spec fn commodity_delta_charge_inputs_spec() -> Seq<MeasureExpr> {
    seq![
        MeasureExpr::Column(Column::RiskClass),
        MeasureExpr::Column(Column::RiskFactor),
        MeasureExpr::Column(Column::CommodityLocation),
        MeasureExpr::Column(Column::BucketBCBS),
    ] + Seq::new(COMMODITY_TENORS as nat, |i: int| commodity_weighted_tenor(i))
}

/// The columns that the commodity delta charge reads.
pub fn commodity_delta_charge_inputs() -> (v: Vec<MeasureExpr>)
    ensures
        v@ == commodity_delta_charge_inputs_spec(),
{
    let mut v: Vec<MeasureExpr> = Vec::new();
    v.push(MeasureExpr::Column(Column::RiskClass));
    v.push(MeasureExpr::Column(Column::RiskFactor));
    v.push(MeasureExpr::Column(Column::CommodityLocation));
    v.push(MeasureExpr::Column(Column::BucketBCBS));
    let mut i: usize = 0;
    while i < COMMODITY_TENORS
        invariant
            i <= COMMODITY_TENORS,
            v@ =~= commodity_delta_charge_inputs_spec().take(4 + i),
        decreases COMMODITY_TENORS - i,
    {
        v.push(commodity_delta_sens_weighted_tenor(i));
        i = i + 1;
    }
    v
}

/// The commodity delta charge recipe of a scenario.
pub open spec fn commodity_delta_recipe(scenario: Scenario) -> ChargeRecipe {
    ChargeRecipe::CommodityDelta {
        scenario,
        bucket_rho: Param { key: OverrideKey::CommodityBaseDeltaRhoBucket, default: ScenarioParam::BaseComRhoCty },
        tenor_rho: Param { key: OverrideKey::CommodityBaseDeltaRhoTenor, default: ScenarioParam::BaseComRhoTenor },
        basis_rho: Param { key: OverrideKey::CommodityBaseDeltaRhoBasis, default: ScenarioParam::BaseComRhoBasisDiff },
        gamma: Param { key: OverrideKey::CommodityDeltaGamma, default: ScenarioParam::ComGamma },
    }
}

/// Commodity delta capital charge in a scenario. Its four parameters are
/// taken from the request's optional parameters where it holds them, under
/// the per-scenario keys `commodity_base_delta_rho_bucket` (correlation of
/// different commodities per bucket), `commodity_base_delta_rho_tenor`,
/// `commodity_base_delta_rho_basis` (different delivery locations) and
/// `commodity_delta_gamma` (the key the commodity vega charge reads for the
/// same gamma), and from the scenario otherwise.
pub fn commodity_delta_charge(_params: &CalcParams, scenario: Scenario) -> (e: MeasureExpr)
    ensures
        e == MeasureExpr::Charge(commodity_delta_recipe(scenario)),
        e matches MeasureExpr::Charge(r) && recipe_scenario(r) == scenario,
{
    MeasureExpr::Charge(ChargeRecipe::CommodityDelta {
        scenario,
        bucket_rho: Param { key: OverrideKey::CommodityBaseDeltaRhoBucket, default: ScenarioParam::BaseComRhoCty },
        tenor_rho: Param { key: OverrideKey::CommodityBaseDeltaRhoTenor, default: ScenarioParam::BaseComRhoTenor },
        basis_rho: Param { key: OverrideKey::CommodityBaseDeltaRhoBasis, default: ScenarioParam::BaseComRhoBasisDiff },
        gamma: Param { key: OverrideKey::CommodityDeltaGamma, default: ScenarioParam::ComGamma },
    })
}

} // verus!
