//! Laws that tie charge recipes, calculators and measure catalogues to what
//! they are asked for: the scenario, the metric, the jurisdiction and the
//! measure's name.
use vstd::prelude::*;
use crate::calculators::calculator_expr;
use crate::commodity::{commodity_delta_recipe, commodity_tenor, commodity_weighted_tenor, COMMODITY_TENORS};
use crate::csr_nonsec_totals::csrnonsec_total_catalogue;
use crate::csr_sec_ctp_curvature::{csrsecctp_curv_catalogue, csrsecctp_curvature_recipe};
use crate::csr_sec_ctp_delta::{
    csr_sec_ctp_delta_recipe, csrsecctp_delta_catalogue, ctp_tenor, ctp_weighted_tenor, CTP_TENORS,
};
use crate::laws::{
    lemma_ctp_weighted_total_covers_tenors, summands,
    lemma_com_vega_catalogue, lemma_csrnonsec_total_catalogue, lemma_csrsecctp_curv_catalogue,
    lemma_csrsecctp_delta_catalogue,
};
use crate::recipe::{
    is_charge_for, recipe_metric, recipe_risk_class, recipe_scenario, Calculator, ChargeKind,
    ChargeRecipe, MeasureExpr, MeasureView, OverrideKey, Param, ScenarioParam, override_key_per_scenario,
};
use crate::types::{Aggregation, CalcParams, Column, Cvr, Jurisdiction, ReturnMetric, RiskCategory, RiskClass, Scenario};
use crate::vega::{com_vega_catalogue, com_vega_recipe, csr_sec_nonctp_vega_recipe};

verus! {

/// Every charge recipe computes in the scenario, for the metric and on the
/// risk class it was asked for, whatever the jurisdiction.
pub proof fn lemma_charge_recipes_follow_request(j: Jurisdiction, s: Scenario, m: ReturnMetric)
    ensures
        recipe_scenario(com_vega_recipe(s, m)) == s,
        recipe_metric(com_vega_recipe(s, m)) == Some(m),
        recipe_risk_class(com_vega_recipe(s, m)) == RiskClass::Commodity,
        recipe_scenario(csr_sec_nonctp_vega_recipe(s, m)) == s,
        recipe_metric(csr_sec_nonctp_vega_recipe(s, m)) == Some(m),
        recipe_risk_class(csr_sec_nonctp_vega_recipe(s, m)) == RiskClass::CsrSecNonCtp,
        recipe_scenario(csrsecctp_curvature_recipe(j, s, m)) == s,
        recipe_metric(csrsecctp_curvature_recipe(j, s, m)) == Some(m),
        recipe_risk_class(csrsecctp_curvature_recipe(j, s, m)) == RiskClass::CsrSecCtp,
        recipe_scenario(csr_sec_ctp_delta_recipe(j, s, m)) == s,
        recipe_metric(csr_sec_ctp_delta_recipe(j, s, m)) == Some(m),
        recipe_risk_class(csr_sec_ctp_delta_recipe(j, s, m)) == RiskClass::CsrSecCtp,
        recipe_scenario(commodity_delta_recipe(s)) == s,
{
}

/// The CTP recipes take their columns and default parameters from the
/// jurisdiction: under BCBS the BCBS weight and bucket columns, name
/// correlations and gamma and sixteen delta buckets, under CRR2 the CRR2
/// ones and eighteen delta buckets.
pub proof fn lemma_ctp_recipes_follow_jurisdiction(s: Scenario, m: ReturnMetric)
    ensures
        csrsecctp_curvature_recipe(Jurisdiction::BCBS, s, m) matches ChargeRecipe::CsrNonSecCurvature {
            weight, bucket, name_rho, gamma, special_bucket, ..
        } && weight == Column::CurvatureRiskWeight && bucket == Column::BucketBCBS
            && name_rho.default == ScenarioParam::CsrCtpCurvDiffNameRhoPerBucketBcbs
            && gamma.default == ScenarioParam::CsrCtpCurvGammaBcbs && special_bucket is None,
        csrsecctp_curvature_recipe(Jurisdiction::CRR2, s, m) matches ChargeRecipe::CsrNonSecCurvature {
            weight, bucket, name_rho, gamma, special_bucket, ..
        } && weight == Column::CurvatureRiskWeightCRR2 && bucket == Column::BucketCRR2
            && name_rho.default == ScenarioParam::CsrCtpCurvDiffNameRhoPerBucketCrr2
            && gamma.default == ScenarioParam::CsrCtpCurvGammaCrr2 && special_bucket is None,
        csr_sec_ctp_delta_recipe(Jurisdiction::BCBS, s, m) matches ChargeRecipe::CsrNonSecDelta {
            weights, bucket, n_buckets, n_tenors, name_rho, gamma, ..
        } && weights == Column::SensWeights && bucket == Column::BucketBCBS && n_buckets == 16
            && n_tenors == 5 && name_rho.default == ScenarioParam::BaseCsrCtpRhoNameBcbs
            && gamma.default == ScenarioParam::CsrCtpGamma,
        csr_sec_ctp_delta_recipe(Jurisdiction::CRR2, s, m) matches ChargeRecipe::CsrNonSecDelta {
            weights, bucket, n_buckets, n_tenors, name_rho, gamma, ..
        } && weights == Column::SensWeightsCRR2 && bucket == Column::BucketCRR2 && n_buckets == 18
            && n_tenors == 5 && name_rho.default == ScenarioParam::BaseCsrNonSecRhoNameCrr2
            && gamma.default == ScenarioParam::CsrCtpGammaCrr2,
{
}

/// Each calculator builds what its measure is for: the up and down CVR and
/// PnL measures their own direction, the scenario charges a charge
/// calculation in their scenario and for their metric, the totals the sum
/// of the scenario's three charges, the maxima the largest of the three
/// scenarios' capital charges, and the sensitivities those of their risk
/// class.
pub proof fn lemma_calculators_build_their_measures(p: CalcParams, s: Scenario, m: ReturnMetric)
    ensures
        calculator_expr(Calculator::CsrSecCtpCvrUp, p) == MeasureExpr::Cvr5(RiskClass::CsrSecCtp, Cvr::Up),
        calculator_expr(Calculator::CsrSecCtpCvrDown, p) == MeasureExpr::Cvr5(RiskClass::CsrSecCtp, Cvr::Down),
        calculator_expr(Calculator::CsrSecCtpPnlUp, p) == MeasureExpr::RiskClassCategorySens(
            RiskCategory::Delta,
            RiskClass::CsrSecCtp,
            Box::new(MeasureExpr::Column(Column::PnlUp)),
        ),
        calculator_expr(Calculator::CsrSecCtpPnlDown, p) == MeasureExpr::RiskClassCategorySens(
            RiskCategory::Delta,
            RiskClass::CsrSecCtp,
            Box::new(MeasureExpr::Column(Column::PnlDown)),
        ),
        calculator_expr(Calculator::CsrSecCtpCurvDelta, p) == MeasureExpr::CurvDelta5(RiskClass::CsrSecCtp),
        calculator_expr(Calculator::CsrSecCtpCurvDeltaWeighted, p) == MeasureExpr::Mul(
            Box::new(MeasureExpr::CurvDelta5(RiskClass::CsrSecCtp)),
            Box::new(MeasureExpr::Column(
                if p.jurisdiction == Jurisdiction::BCBS {
                    Column::CurvatureRiskWeight
                } else {
                    Column::CurvatureRiskWeightCRR2
                },
            )),
        ),
        is_charge_for(calculator_expr(Calculator::ComVega(s, m), p), s, m, RiskClass::Commodity),
        is_charge_for(calculator_expr(Calculator::CsrSecCtpCurvature(s, m), p), s, m, RiskClass::CsrSecCtp),
        is_charge_for(calculator_expr(Calculator::CsrSecCtpDelta(s, m), p), s, m, RiskClass::CsrSecCtp),
        calculator_expr(Calculator::CsrNonSecDeltaCharge(s), p) == MeasureExpr::CsrNonSecCapitalCharge(ChargeKind::Delta, s),
        calculator_expr(Calculator::CsrNonSecVegaCharge(s), p) == MeasureExpr::CsrNonSecCapitalCharge(ChargeKind::Vega, s),
        calculator_expr(Calculator::CsrNonSecCurvatureCharge(s), p) == MeasureExpr::CsrNonSecCapitalCharge(
            ChargeKind::Curvature,
            s,
        ),
        calculator_expr(Calculator::CsrNonSecTotal(s), p) == MeasureExpr::TotalSum([
            Calculator::CsrNonSecDeltaCharge(s),
            Calculator::CsrNonSecVegaCharge(s),
            Calculator::CsrNonSecCurvatureCharge(s),
        ]),
        calculator_expr(Calculator::CsrNonSecTotalMax, p) == MeasureExpr::Max([
            Calculator::CsrNonSecTotal(Scenario::Low),
            Calculator::CsrNonSecTotal(Scenario::Medium),
            Calculator::CsrNonSecTotal(Scenario::High),
        ]),
        calculator_expr(Calculator::CsrSecCtpCurvMax, p) == MeasureExpr::Max([
            Calculator::CsrSecCtpCurvature(Scenario::Low, ReturnMetric::CapitalCharge),
            Calculator::CsrSecCtpCurvature(Scenario::Medium, ReturnMetric::CapitalCharge),
            Calculator::CsrSecCtpCurvature(Scenario::High, ReturnMetric::CapitalCharge),
        ]),
        calculator_expr(Calculator::CsrSecCtpDeltaMax, p) == MeasureExpr::Max([
            Calculator::CsrSecCtpDelta(Scenario::Low, ReturnMetric::CapitalCharge),
            Calculator::CsrSecCtpDelta(Scenario::Medium, ReturnMetric::CapitalCharge),
            Calculator::CsrSecCtpDelta(Scenario::High, ReturnMetric::CapitalCharge),
        ]),
        calculator_expr(Calculator::TotalComVegaSens, p) == MeasureExpr::RiskClassCategorySens(
            RiskCategory::Vega,
            RiskClass::Commodity,
            Box::new(MeasureExpr::TotalVegaCurvSens),
        ),
        calculator_expr(Calculator::TotalComVegaSensWeighted, p) == MeasureExpr::Mul(
            Box::new(calculator_expr(Calculator::TotalComVegaSens, p)),
            Box::new(MeasureExpr::ListItem(Column::SensWeights, 0)),
        ),
        calculator_expr(Calculator::TotalCsrSecCtpDeltaSens, p) == MeasureExpr::RiskClassCategorySens(
            RiskCategory::Delta,
            RiskClass::CsrSecCtp,
            Box::new(MeasureExpr::TotalDeltaSens),
        ),
        calculator_expr(Calculator::DrcCharge, p) == MeasureExpr::Add(
            Box::new(MeasureExpr::Column(Column::DrcNonSecCapitalCharge)),
            Box::new(MeasureExpr::Column(Column::DrcSecNonCtpCapitalCharge)),
        ),
        summands(calculator_expr(Calculator::CsrSecCtpDeltaSensWeighted, p)) == Seq::new(
            CTP_TENORS as nat,
            |i: int| ctp_weighted_tenor(p.jurisdiction, i),
        ),
{
    lemma_ctp_weighted_total_covers_tenors(p.jurisdiction);
}

/// A scenario as it stands in a measure's name.
pub open spec fn scenario_word(s: Scenario) -> Seq<char> {
    match s {
        Scenario::Low => "Low"@,
        Scenario::Medium => "Medium"@,
        Scenario::High => "High"@,
    }
}

/// A return metric as it stands in a measure's name.
pub open spec fn metric_word(m: ReturnMetric) -> Seq<char> {
    match m {
        ReturnMetric::Sb => "Sb"@,
        ReturnMetric::Kb => "Kb"@,
        ReturnMetric::KbPlus => "KbPlus"@,
        ReturnMetric::KbMinus => "KbMinus"@,
        ReturnMetric::CapitalCharge => "Charge"@,
    }
}

/// Name of the commodity vega measure that a calculator computes, empty
/// where no commodity vega measure uses it. The bucket sum is offered once,
/// computed in the medium scenario.
pub open spec fn com_vega_measure_name(c: Calculator) -> Seq<char> {
    match c {
        Calculator::TotalComVegaSens => "Commodity_VegaSens"@,
        Calculator::TotalComVegaSensWeighted => "Commodity_VegaSens_Weighted"@,
        Calculator::ComVega(s, m) => match m {
            ReturnMetric::Sb => if s == Scenario::Medium {
                "Commodity_Vega"@ + metric_word(m)
            } else {
                Seq::empty()
            },
            ReturnMetric::Kb | ReturnMetric::CapitalCharge => "Commodity_Vega"@ + metric_word(m) + "_"@
                + scenario_word(s),
            _ => Seq::empty(),
        },
        _ => Seq::empty(),
    }
}

/// Name of the non-securitisation total charge measure that a calculator
/// computes, empty where no such measure uses it.
pub open spec fn csrnonsec_total_measure_name(c: Calculator) -> Seq<char> {
    match c {
        Calculator::CsrNonSecTotal(s) => "CSR nonSec TotalCharge "@ + scenario_word(s),
        Calculator::CsrNonSecTotalMax => "CSR nonSec TotalCharge MAX"@,
        _ => Seq::empty(),
    }
}

/// Name of the CTP curvature measure that a calculator computes, empty
/// where no CTP curvature measure uses it.
pub open spec fn ctp_curv_measure_name(c: Calculator) -> Seq<char> {
    match c {
        Calculator::CsrSecCtpCurvDelta => "CSR Sec CTP CurvatureDelta"@,
        Calculator::CsrSecCtpCurvDeltaWeighted => "CSR Sec CTP CurvatureDelta_Weighted"@,
        Calculator::CsrSecCtpPnlUp => "CSR Sec CTP PnLup"@,
        Calculator::CsrSecCtpPnlDown => "CSR Sec CTP PnLdown"@,
        Calculator::CsrSecCtpCvrUp => "CSR Sec CTP CVRup"@,
        Calculator::CsrSecCtpCvrDown => "CSR Sec CTP CVRdown"@,
        Calculator::CsrSecCtpCurvature(s, m) => "CSR Sec CTP "@ + (if m == ReturnMetric::CapitalCharge {
            "CurvatureCharge"@
        } else {
            "Curvature "@ + metric_word(m)
        }) + " "@ + scenario_word(s),
        Calculator::CsrSecCtpCurvMax => "CSR Sec CTP CurvatureCharge MAX"@,
        _ => Seq::empty(),
    }
}

/// Name of the CTP delta measure that a calculator computes, empty where no
/// CTP delta measure uses it. The bucket sum is offered once, computed in
/// the low scenario.
pub open spec fn ctp_delta_measure_name(c: Calculator) -> Seq<char> {
    match c {
        Calculator::TotalCsrSecCtpDeltaSens => "CSR_secCTP_DeltaSens"@,
        Calculator::CsrSecCtpDeltaSensWeighted => "CSR_secCTP_DeltaSens_Weighted"@,
        Calculator::CsrSecCtpDelta(s, m) => match m {
            ReturnMetric::Sb => if s == Scenario::Low {
                "CSR_secCTP_Delta"@ + metric_word(m)
            } else {
                Seq::empty()
            },
            ReturnMetric::Kb | ReturnMetric::CapitalCharge => "CSR_secCTP_Delta"@ + metric_word(m) + "_"@
                + scenario_word(s),
            _ => Seq::empty(),
        },
        Calculator::CsrSecCtpDeltaMax => "CSR_secCTP_DeltaCharge_MAX"@,
        _ => Seq::empty(),
    }
}

/// How the commodity vega measure of a calculator is aggregated: the
/// charges by their first value, the sensitivities not at all.
pub open spec fn com_vega_measure_aggregation(c: Calculator) -> Option<Aggregation> {
    match c {
        Calculator::ComVega(_, _) => Some(Aggregation::First),
        _ => None,
    }
}

/// How the non-securitisation total charge measures are aggregated: by
/// their first value.
pub open spec fn csrnonsec_total_measure_aggregation(_c: Calculator) -> Option<Aggregation> {
    Some(Aggregation::First)
}

/// How the CTP curvature measure of a calculator is aggregated: the charges
/// and their maximum as scalars, the sensitivities not at all.
pub open spec fn ctp_curv_measure_aggregation(c: Calculator) -> Option<Aggregation> {
    match c {
        Calculator::CsrSecCtpCurvature(_, _) | Calculator::CsrSecCtpCurvMax => Some(Aggregation::Scalar),
        _ => None,
    }
}

/// How the CTP delta measure of a calculator is aggregated: the charges and
/// their maximum by their first value, the sensitivities not at all.
pub open spec fn ctp_delta_measure_aggregation(c: Calculator) -> Option<Aggregation> {
    match c {
        Calculator::CsrSecCtpDelta(_, _) | Calculator::CsrSecCtpDeltaMax => Some(Aggregation::First),
        _ => None,
    }
}

/// Maturity in months of a sensitivity column; `None` for a column that is
/// no tenor.
pub open spec fn tenor_months(c: Column) -> Option<nat> {
    match c {
        Column::SensitivitySpot => Some(0),
        Column::Sensitivity025Y => Some(3),
        Column::Sensitivity05Y => Some(6),
        Column::Sensitivity1Y => Some(12),
        Column::Sensitivity2Y => Some(24),
        Column::Sensitivity3Y => Some(36),
        Column::Sensitivity5Y => Some(60),
        Column::Sensitivity10Y => Some(120),
        Column::Sensitivity15Y => Some(180),
        Column::Sensitivity20Y => Some(240),
        Column::Sensitivity30Y => Some(360),
        _ => None,
    }
}

/// The delta tenors are sensitivity columns in strictly increasing
/// maturity: the commodity tenors from spot to thirty years, the CTP tenors
/// from six months to ten years; and tenor `i` is weighted by item `i` of
/// the weights column (for CTP, that of the jurisdiction).
pub proof fn lemma_tenors_in_maturity_order()
    ensures
        tenor_months(commodity_tenor(0)) == Some(0nat),
        tenor_months(commodity_tenor(COMMODITY_TENORS - 1)) == Some(360nat),
        forall|i: int| 0 <= i < COMMODITY_TENORS ==> #[trigger] tenor_months(commodity_tenor(i)) is Some,
        forall|i: int, k: int|
            0 <= i < k < COMMODITY_TENORS ==> tenor_months(#[trigger] commodity_tenor(i))->0 < tenor_months(
                #[trigger] commodity_tenor(k),
            )->0,
        tenor_months(ctp_tenor(0)) == Some(6nat),
        tenor_months(ctp_tenor(CTP_TENORS - 1)) == Some(120nat),
        forall|i: int| 0 <= i < CTP_TENORS ==> #[trigger] tenor_months(ctp_tenor(i)) is Some,
        forall|i: int, k: int|
            0 <= i < k < CTP_TENORS ==> tenor_months(#[trigger] ctp_tenor(i))->0 < tenor_months(
                #[trigger] ctp_tenor(k),
            )->0,
        forall|i: int|
            0 <= i < COMMODITY_TENORS ==> #[trigger] commodity_weighted_tenor(i) == MeasureExpr::TenorWeightedSens(
                RiskCategory::Delta,
                RiskClass::Commodity,
                commodity_tenor(i),
                Column::SensWeights,
                i as usize,
            ),
        forall|j: Jurisdiction, i: int|
            0 <= i < CTP_TENORS ==> #[trigger] ctp_weighted_tenor(j, i) == MeasureExpr::TenorWeightedSens(
                RiskCategory::Delta,
                RiskClass::CsrSecCtp,
                ctp_tenor(i),
                if j == Jurisdiction::BCBS { Column::SensWeights } else { Column::SensWeightsCRR2 },
                i as usize,
            ),
{
    assert forall|i: int, k: int| 0 <= i < k < COMMODITY_TENORS implies tenor_months(commodity_tenor(i))->0
        < tenor_months(commodity_tenor(k))->0 by {
        assert(0 <= i < 11 && 0 <= k < 11);
    }
    assert forall|i: int, k: int| 0 <= i < k < CTP_TENORS implies tenor_months(ctp_tenor(i))->0 < tenor_months(
        ctp_tenor(k),
    )->0 by {
        assert(0 <= i < 5 && 0 <= k < 5);
    }
}

/// Where each charge looks for overrides, and what it falls back to: the
/// commodity charges read every override per scenario; the securitisation
/// (non-CTP) vega its gamma per scenario and its correlations under fixed
/// keys, with bucket `25` as its special bucket; the CTP delta charge every
/// override under fixed keys; the CTP curvature charge per scenario.
pub proof fn lemma_charge_parameters(j: Jurisdiction, s: Scenario, m: ReturnMetric)
    ensures
        commodity_delta_recipe(s) matches ChargeRecipe::CommodityDelta { bucket_rho, tenor_rho, basis_rho, gamma, .. }
            && bucket_rho == (Param { key: OverrideKey::CommodityBaseDeltaRhoBucket, default: ScenarioParam::BaseComRhoCty })
            && tenor_rho == (Param { key: OverrideKey::CommodityBaseDeltaRhoTenor, default: ScenarioParam::BaseComRhoTenor })
            && basis_rho == (Param { key: OverrideKey::CommodityBaseDeltaRhoBasis, default: ScenarioParam::BaseComRhoBasisDiff })
            && gamma == (Param { key: OverrideKey::CommodityDeltaGamma, default: ScenarioParam::ComGamma })
            && override_key_per_scenario(bucket_rho.key) && override_key_per_scenario(tenor_rho.key)
            && override_key_per_scenario(basis_rho.key) && override_key_per_scenario(gamma.key),
        com_vega_recipe(s, m) matches ChargeRecipe::EquityVega { special_bucket, vega_rho, gamma, bucket_rho, .. }
            && special_bucket is None
            && vega_rho == (Param { key: OverrideKey::CommodityBaseOptMatVegaRho, default: ScenarioParam::BaseVegaRho })
            && gamma == (Param { key: OverrideKey::CommodityDeltaGamma, default: ScenarioParam::ComGamma })
            && bucket_rho == (Param { key: OverrideKey::CommodityBaseDeltaRhoBucket, default: ScenarioParam::BaseComDeltaRhoCty })
            && override_key_per_scenario(vega_rho.key) && override_key_per_scenario(gamma.key)
            && override_key_per_scenario(bucket_rho.key),
        csr_sec_nonctp_vega_recipe(s, m) matches ChargeRecipe::EquityVega { special_bucket, vega_rho, gamma, bucket_rho, .. }
            && special_bucket == Some("25")
            && vega_rho == (Param { key: OverrideKey::BaseCsrSecNonCtpOptMatVegaRho, default: ScenarioParam::BaseVegaRho })
            && gamma == (Param { key: OverrideKey::CsrSecNonCtpVegaGamma, default: ScenarioParam::CsrSecNonCtpGamma })
            && bucket_rho == (Param {
                key: OverrideKey::BaseCsrSecNonCtpRhoDiffNameBucket,
                default: ScenarioParam::BaseCsrSecNonCtpRhoDiffName,
            })
            && !override_key_per_scenario(vega_rho.key) && override_key_per_scenario(gamma.key)
            && !override_key_per_scenario(bucket_rho.key),
        csr_sec_ctp_delta_recipe(j, s, m) matches ChargeRecipe::CsrNonSecDelta { tenor_rho, name_rho, basis_rho, gamma, .. }
            && tenor_rho == (Param { key: OverrideKey::BaseCsrCtpTenorRho, default: ScenarioParam::BaseCsrCtpRhoTenor })
            && name_rho.key == OverrideKey::BaseCsrCtpDiffNameRhoPerBucket
            && basis_rho == (Param { key: OverrideKey::BaseCsrCtpDiffBasisRho, default: ScenarioParam::BaseCsrNonSecRhoBasis })
            && gamma.key == OverrideKey::BaseCsrCtpRatingGamma
            && !override_key_per_scenario(tenor_rho.key) && !override_key_per_scenario(name_rho.key)
            && !override_key_per_scenario(basis_rho.key) && !override_key_per_scenario(gamma.key),
        csrsecctp_curvature_recipe(j, s, m) matches ChargeRecipe::CsrNonSecCurvature { name_rho, gamma, .. }
            && name_rho.key == OverrideKey::CsrCtpCurvDiffNameRhoPerBucket && gamma.key == OverrideKey::CsrCtpCurvGamma
            && override_key_per_scenario(name_rho.key) && override_key_per_scenario(gamma.key),
{
}

/// Every measure of `com_vega_catalogue` is named after what its calculator computes
/// (see `com_vega_measure_name`): a measure named after a scenario, and a metric, runs
/// the commodity vega calculation in that scenario and for that metric; no two
/// measures share a calculator; and each calculation the names stand for
/// is offered. Each is aggregated as its calculation calls for (see
/// `com_vega_measure_aggregation`).
pub proof fn lemma_com_vega_names_follow_calculators()
    ensures
        forall|i: int| 0 <= i < com_vega_catalogue().len() ==> #[trigger] com_vega_catalogue()[i].name == com_vega_measure_name(com_vega_catalogue()[i].calculator),
        forall|i: int| 0 <= i < com_vega_catalogue().len() ==> #[trigger] com_vega_catalogue()[i].aggregation == com_vega_measure_aggregation(com_vega_catalogue()[i].calculator),
        forall|i: int, j: int| 0 <= i < j < com_vega_catalogue().len() ==> #[trigger] com_vega_catalogue()[i].calculator != #[trigger] com_vega_catalogue()[j].calculator,
        com_vega_catalogue().map_values(|v: MeasureView| v.calculator).contains(Calculator::ComVega(Scenario::Low, ReturnMetric::Kb)),
        com_vega_catalogue().map_values(|v: MeasureView| v.calculator).contains(Calculator::ComVega(Scenario::Low, ReturnMetric::CapitalCharge)),
        com_vega_catalogue().map_values(|v: MeasureView| v.calculator).contains(Calculator::ComVega(Scenario::Medium, ReturnMetric::Kb)),
        com_vega_catalogue().map_values(|v: MeasureView| v.calculator).contains(Calculator::ComVega(Scenario::Medium, ReturnMetric::CapitalCharge)),
        com_vega_catalogue().map_values(|v: MeasureView| v.calculator).contains(Calculator::ComVega(Scenario::High, ReturnMetric::Kb)),
        com_vega_catalogue().map_values(|v: MeasureView| v.calculator).contains(Calculator::ComVega(Scenario::High, ReturnMetric::CapitalCharge)),
{
    let cat = com_vega_catalogue();
    reveal_strlit("Commodity_VegaSens");
    reveal_strlit("Commodity_VegaSens_Weighted");
    reveal_strlit("Commodity_VegaSb");
    reveal_strlit("Commodity_VegaKb_Low");
    reveal_strlit("Commodity_VegaCharge_Low");
    reveal_strlit("Commodity_VegaKb_Medium");
    reveal_strlit("Commodity_VegaCharge_Medium");
    reveal_strlit("Commodity_VegaKb_High");
    reveal_strlit("Commodity_VegaCharge_High");
    reveal_strlit("Commodity_Vega");
    reveal_strlit("_");
    reveal_strlit("Low");
    reveal_strlit("Medium");
    reveal_strlit("High");
    reveal_strlit("Sb");
    reveal_strlit("Kb");
    reveal_strlit("KbPlus");
    reveal_strlit("KbMinus");
    reveal_strlit("Charge");
    assert forall|i: int| 0 <= i < cat.len() implies #[trigger] cat[i].name == com_vega_measure_name(cat[i].calculator) by {
        if i == 0 {
            assert(cat[0].name =~= com_vega_measure_name(cat[0].calculator));
        } else if i == 1 {
            assert(cat[1].name =~= com_vega_measure_name(cat[1].calculator));
        } else if i == 2 {
            assert(cat[2].name =~= com_vega_measure_name(cat[2].calculator));
        } else if i == 3 {
            assert(cat[3].name =~= com_vega_measure_name(cat[3].calculator));
        } else if i == 4 {
            assert(cat[4].name =~= com_vega_measure_name(cat[4].calculator));
        } else if i == 5 {
            assert(cat[5].name =~= com_vega_measure_name(cat[5].calculator));
        } else if i == 6 {
            assert(cat[6].name =~= com_vega_measure_name(cat[6].calculator));
        } else if i == 7 {
            assert(cat[7].name =~= com_vega_measure_name(cat[7].calculator));
        } else if i == 8 {
            assert(cat[8].name =~= com_vega_measure_name(cat[8].calculator));
        }
    }
    assert forall|i: int| 0 <= i < cat.len() implies #[trigger] cat[i].aggregation == com_vega_measure_aggregation(cat[i].calculator) by {
        if i == 0 {} else if i == 1 {} else if i == 2 {} else if i == 3 {} else if i == 4 {} else if i == 5 {} else if i == 6 {} else if i == 7 {} else if i == 8 {}
    }
    lemma_com_vega_catalogue();
    assert forall|i: int, j: int| 0 <= i < j < cat.len() implies cat[i].calculator != cat[j].calculator by {
        assert(cat[i].name == com_vega_measure_name(cat[i].calculator));
        assert(cat[j].name == com_vega_measure_name(cat[j].calculator));
    }
    let calcs = cat.map_values(|v: MeasureView| v.calculator);
    assert(calcs[3] == Calculator::ComVega(Scenario::Low, ReturnMetric::Kb));
    assert(calcs[4] == Calculator::ComVega(Scenario::Low, ReturnMetric::CapitalCharge));
    assert(calcs[5] == Calculator::ComVega(Scenario::Medium, ReturnMetric::Kb));
    assert(calcs[6] == Calculator::ComVega(Scenario::Medium, ReturnMetric::CapitalCharge));
    assert(calcs[7] == Calculator::ComVega(Scenario::High, ReturnMetric::Kb));
    assert(calcs[8] == Calculator::ComVega(Scenario::High, ReturnMetric::CapitalCharge));
}

/// Every measure of `csrnonsec_total_catalogue` is named after what its calculator computes
/// (see `csrnonsec_total_measure_name`): a measure named after a scenario, and a metric, runs
/// the non-securitisation total charge calculation in that scenario and for that metric; no two
/// measures share a calculator; and each calculation the names stand for
/// is offered. Each is aggregated as its calculation calls for (see
/// `csrnonsec_total_measure_aggregation`).
pub proof fn lemma_csrnonsec_total_names_follow_calculators()
    ensures
        forall|i: int| 0 <= i < csrnonsec_total_catalogue().len() ==> #[trigger] csrnonsec_total_catalogue()[i].name == csrnonsec_total_measure_name(csrnonsec_total_catalogue()[i].calculator),
        forall|i: int| 0 <= i < csrnonsec_total_catalogue().len() ==> #[trigger] csrnonsec_total_catalogue()[i].aggregation == csrnonsec_total_measure_aggregation(csrnonsec_total_catalogue()[i].calculator),
        forall|i: int, j: int| 0 <= i < j < csrnonsec_total_catalogue().len() ==> #[trigger] csrnonsec_total_catalogue()[i].calculator != #[trigger] csrnonsec_total_catalogue()[j].calculator,
        csrnonsec_total_catalogue().map_values(|v: MeasureView| v.calculator).contains(Calculator::CsrNonSecTotal(Scenario::Low)),
        csrnonsec_total_catalogue().map_values(|v: MeasureView| v.calculator).contains(Calculator::CsrNonSecTotal(Scenario::Medium)),
        csrnonsec_total_catalogue().map_values(|v: MeasureView| v.calculator).contains(Calculator::CsrNonSecTotal(Scenario::High)),
        csrnonsec_total_catalogue().map_values(|v: MeasureView| v.calculator).contains(Calculator::CsrNonSecTotalMax),
{
    let cat = csrnonsec_total_catalogue();
    reveal_strlit("CSR nonSec TotalCharge Low");
    reveal_strlit("CSR nonSec TotalCharge Medium");
    reveal_strlit("CSR nonSec TotalCharge High");
    reveal_strlit("CSR nonSec TotalCharge MAX");
    reveal_strlit("CSR nonSec TotalCharge ");
    reveal_strlit("Low");
    reveal_strlit("Medium");
    reveal_strlit("High");
    reveal_strlit("Sb");
    reveal_strlit("Kb");
    reveal_strlit("KbPlus");
    reveal_strlit("KbMinus");
    reveal_strlit("Charge");
    assert forall|i: int| 0 <= i < cat.len() implies #[trigger] cat[i].name == csrnonsec_total_measure_name(cat[i].calculator) by {
        if i == 0 {
            assert(cat[0].name =~= csrnonsec_total_measure_name(cat[0].calculator));
        } else if i == 1 {
            assert(cat[1].name =~= csrnonsec_total_measure_name(cat[1].calculator));
        } else if i == 2 {
            assert(cat[2].name =~= csrnonsec_total_measure_name(cat[2].calculator));
        } else if i == 3 {
            assert(cat[3].name =~= csrnonsec_total_measure_name(cat[3].calculator));
        }
    }
    assert forall|i: int| 0 <= i < cat.len() implies #[trigger] cat[i].aggregation == csrnonsec_total_measure_aggregation(cat[i].calculator) by {
        if i == 0 {} else if i == 1 {} else if i == 2 {} else if i == 3 {}
    }
    lemma_csrnonsec_total_catalogue();
    assert forall|i: int, j: int| 0 <= i < j < cat.len() implies cat[i].calculator != cat[j].calculator by {
        assert(cat[i].name == csrnonsec_total_measure_name(cat[i].calculator));
        assert(cat[j].name == csrnonsec_total_measure_name(cat[j].calculator));
    }
    let calcs = cat.map_values(|v: MeasureView| v.calculator);
    assert(calcs[0] == Calculator::CsrNonSecTotal(Scenario::Low));
    assert(calcs[1] == Calculator::CsrNonSecTotal(Scenario::Medium));
    assert(calcs[2] == Calculator::CsrNonSecTotal(Scenario::High));
    assert(calcs[3] == Calculator::CsrNonSecTotalMax);
}

/// Every measure of `csrsecctp_curv_catalogue` is named after what its calculator computes
/// (see `ctp_curv_measure_name`): a measure named after a scenario, and a metric, runs
/// the CTP curvature calculation in that scenario and for that metric; no two
/// measures share a calculator; and each calculation the names stand for
/// is offered. Each is aggregated as its calculation calls for (see
/// `ctp_curv_measure_aggregation`).
pub proof fn lemma_csrsecctp_curv_names_follow_calculators()
    ensures
        forall|i: int| 0 <= i < csrsecctp_curv_catalogue().len() ==> #[trigger] csrsecctp_curv_catalogue()[i].name == ctp_curv_measure_name(csrsecctp_curv_catalogue()[i].calculator),
        forall|i: int| 0 <= i < csrsecctp_curv_catalogue().len() ==> #[trigger] csrsecctp_curv_catalogue()[i].aggregation == ctp_curv_measure_aggregation(csrsecctp_curv_catalogue()[i].calculator),
        forall|i: int, j: int| 0 <= i < j < csrsecctp_curv_catalogue().len() ==> #[trigger] csrsecctp_curv_catalogue()[i].calculator != #[trigger] csrsecctp_curv_catalogue()[j].calculator,
        csrsecctp_curv_catalogue().map_values(|v: MeasureView| v.calculator).contains(Calculator::CsrSecCtpCurvature(Scenario::Low, ReturnMetric::Sb)),
        csrsecctp_curv_catalogue().map_values(|v: MeasureView| v.calculator).contains(Calculator::CsrSecCtpCurvature(Scenario::Low, ReturnMetric::Kb)),
        csrsecctp_curv_catalogue().map_values(|v: MeasureView| v.calculator).contains(Calculator::CsrSecCtpCurvature(Scenario::Low, ReturnMetric::KbPlus)),
        csrsecctp_curv_catalogue().map_values(|v: MeasureView| v.calculator).contains(Calculator::CsrSecCtpCurvature(Scenario::Low, ReturnMetric::KbMinus)),
        csrsecctp_curv_catalogue().map_values(|v: MeasureView| v.calculator).contains(Calculator::CsrSecCtpCurvature(Scenario::Low, ReturnMetric::CapitalCharge)),
        csrsecctp_curv_catalogue().map_values(|v: MeasureView| v.calculator).contains(Calculator::CsrSecCtpCurvature(Scenario::Medium, ReturnMetric::Sb)),
        csrsecctp_curv_catalogue().map_values(|v: MeasureView| v.calculator).contains(Calculator::CsrSecCtpCurvature(Scenario::Medium, ReturnMetric::Kb)),
        csrsecctp_curv_catalogue().map_values(|v: MeasureView| v.calculator).contains(Calculator::CsrSecCtpCurvature(Scenario::Medium, ReturnMetric::KbPlus)),
        csrsecctp_curv_catalogue().map_values(|v: MeasureView| v.calculator).contains(Calculator::CsrSecCtpCurvature(Scenario::Medium, ReturnMetric::KbMinus)),
        csrsecctp_curv_catalogue().map_values(|v: MeasureView| v.calculator).contains(Calculator::CsrSecCtpCurvature(Scenario::Medium, ReturnMetric::CapitalCharge)),
        csrsecctp_curv_catalogue().map_values(|v: MeasureView| v.calculator).contains(Calculator::CsrSecCtpCurvature(Scenario::High, ReturnMetric::Sb)),
        csrsecctp_curv_catalogue().map_values(|v: MeasureView| v.calculator).contains(Calculator::CsrSecCtpCurvature(Scenario::High, ReturnMetric::Kb)),
        csrsecctp_curv_catalogue().map_values(|v: MeasureView| v.calculator).contains(Calculator::CsrSecCtpCurvature(Scenario::High, ReturnMetric::KbPlus)),
        csrsecctp_curv_catalogue().map_values(|v: MeasureView| v.calculator).contains(Calculator::CsrSecCtpCurvature(Scenario::High, ReturnMetric::KbMinus)),
        csrsecctp_curv_catalogue().map_values(|v: MeasureView| v.calculator).contains(Calculator::CsrSecCtpCurvature(Scenario::High, ReturnMetric::CapitalCharge)),
        csrsecctp_curv_catalogue().map_values(|v: MeasureView| v.calculator).contains(Calculator::CsrSecCtpCvrUp),
        csrsecctp_curv_catalogue().map_values(|v: MeasureView| v.calculator).contains(Calculator::CsrSecCtpCvrDown),
        csrsecctp_curv_catalogue().map_values(|v: MeasureView| v.calculator).contains(Calculator::CsrSecCtpPnlUp),
        csrsecctp_curv_catalogue().map_values(|v: MeasureView| v.calculator).contains(Calculator::CsrSecCtpPnlDown),
{
    let cat = csrsecctp_curv_catalogue();
    reveal_strlit("CSR Sec CTP CurvatureDelta");
    reveal_strlit("CSR Sec CTP CurvatureDelta_Weighted");
    reveal_strlit("CSR Sec CTP PnLup");
    reveal_strlit("CSR Sec CTP PnLdown");
    reveal_strlit("CSR Sec CTP CVRup");
    reveal_strlit("CSR Sec CTP CVRdown");
    reveal_strlit("CSR Sec CTP Curvature KbPlus Medium");
    reveal_strlit("CSR Sec CTP Curvature KbMinus Medium");
    reveal_strlit("CSR Sec CTP Curvature Kb Medium");
    reveal_strlit("CSR Sec CTP Curvature Sb Medium");
    reveal_strlit("CSR Sec CTP CurvatureCharge Medium");
    reveal_strlit("CSR Sec CTP Curvature KbPlus Low");
    reveal_strlit("CSR Sec CTP Curvature KbMinus Low");
    reveal_strlit("CSR Sec CTP Curvature Kb Low");
    reveal_strlit("CSR Sec CTP Curvature Sb Low");
    reveal_strlit("CSR Sec CTP CurvatureCharge Low");
    reveal_strlit("CSR Sec CTP Curvature KbPlus High");
    reveal_strlit("CSR Sec CTP Curvature KbMinus High");
    reveal_strlit("CSR Sec CTP Curvature Kb High");
    reveal_strlit("CSR Sec CTP Curvature Sb High");
    reveal_strlit("CSR Sec CTP CurvatureCharge High");
    reveal_strlit("CSR Sec CTP CurvatureCharge MAX");
    reveal_strlit("CSR Sec CTP ");
    reveal_strlit("CurvatureCharge");
    reveal_strlit("Curvature ");
    reveal_strlit(" ");
    reveal_strlit("Low");
    reveal_strlit("Medium");
    reveal_strlit("High");
    reveal_strlit("Sb");
    reveal_strlit("Kb");
    reveal_strlit("KbPlus");
    reveal_strlit("KbMinus");
    reveal_strlit("Charge");
    assert forall|i: int| 0 <= i < cat.len() implies #[trigger] cat[i].name == ctp_curv_measure_name(cat[i].calculator) by {
        if i == 0 {
            assert(cat[0].name =~= ctp_curv_measure_name(cat[0].calculator));
        } else if i == 1 {
            assert(cat[1].name =~= ctp_curv_measure_name(cat[1].calculator));
        } else if i == 2 {
            assert(cat[2].name =~= ctp_curv_measure_name(cat[2].calculator));
        } else if i == 3 {
            assert(cat[3].name =~= ctp_curv_measure_name(cat[3].calculator));
        } else if i == 4 {
            assert(cat[4].name =~= ctp_curv_measure_name(cat[4].calculator));
        } else if i == 5 {
            assert(cat[5].name =~= ctp_curv_measure_name(cat[5].calculator));
        } else if i == 6 {
            assert(cat[6].name =~= ctp_curv_measure_name(cat[6].calculator));
        } else if i == 7 {
            assert(cat[7].name =~= ctp_curv_measure_name(cat[7].calculator));
        } else if i == 8 {
            assert(cat[8].name =~= ctp_curv_measure_name(cat[8].calculator));
        } else if i == 9 {
            assert(cat[9].name =~= ctp_curv_measure_name(cat[9].calculator));
        } else if i == 10 {
            assert(cat[10].name =~= ctp_curv_measure_name(cat[10].calculator));
        } else if i == 11 {
            assert(cat[11].name =~= ctp_curv_measure_name(cat[11].calculator));
        } else if i == 12 {
            assert(cat[12].name =~= ctp_curv_measure_name(cat[12].calculator));
        } else if i == 13 {
            assert(cat[13].name =~= ctp_curv_measure_name(cat[13].calculator));
        } else if i == 14 {
            assert(cat[14].name =~= ctp_curv_measure_name(cat[14].calculator));
        } else if i == 15 {
            assert(cat[15].name =~= ctp_curv_measure_name(cat[15].calculator));
        } else if i == 16 {
            assert(cat[16].name =~= ctp_curv_measure_name(cat[16].calculator));
        } else if i == 17 {
            assert(cat[17].name =~= ctp_curv_measure_name(cat[17].calculator));
        } else if i == 18 {
            assert(cat[18].name =~= ctp_curv_measure_name(cat[18].calculator));
        } else if i == 19 {
            assert(cat[19].name =~= ctp_curv_measure_name(cat[19].calculator));
        } else if i == 20 {
            assert(cat[20].name =~= ctp_curv_measure_name(cat[20].calculator));
        } else if i == 21 {
            assert(cat[21].name =~= ctp_curv_measure_name(cat[21].calculator));
        }
    }
    assert forall|i: int| 0 <= i < cat.len() implies #[trigger] cat[i].aggregation == ctp_curv_measure_aggregation(cat[i].calculator) by {
        if i == 0 {} else if i == 1 {} else if i == 2 {} else if i == 3 {} else if i == 4 {} else if i == 5 {} else if i == 6 {} else if i == 7 {} else if i == 8 {} else if i == 9 {} else if i == 10 {} else if i == 11 {} else if i == 12 {} else if i == 13 {} else if i == 14 {} else if i == 15 {} else if i == 16 {} else if i == 17 {} else if i == 18 {} else if i == 19 {} else if i == 20 {} else if i == 21 {}
    }
    lemma_csrsecctp_curv_catalogue();
    assert forall|i: int, j: int| 0 <= i < j < cat.len() implies cat[i].calculator != cat[j].calculator by {
        assert(cat[i].name == ctp_curv_measure_name(cat[i].calculator));
        assert(cat[j].name == ctp_curv_measure_name(cat[j].calculator));
    }
    let calcs = cat.map_values(|v: MeasureView| v.calculator);
    assert(calcs[14] == Calculator::CsrSecCtpCurvature(Scenario::Low, ReturnMetric::Sb));
    assert(calcs[13] == Calculator::CsrSecCtpCurvature(Scenario::Low, ReturnMetric::Kb));
    assert(calcs[11] == Calculator::CsrSecCtpCurvature(Scenario::Low, ReturnMetric::KbPlus));
    assert(calcs[12] == Calculator::CsrSecCtpCurvature(Scenario::Low, ReturnMetric::KbMinus));
    assert(calcs[15] == Calculator::CsrSecCtpCurvature(Scenario::Low, ReturnMetric::CapitalCharge));
    assert(calcs[9] == Calculator::CsrSecCtpCurvature(Scenario::Medium, ReturnMetric::Sb));
    assert(calcs[8] == Calculator::CsrSecCtpCurvature(Scenario::Medium, ReturnMetric::Kb));
    assert(calcs[6] == Calculator::CsrSecCtpCurvature(Scenario::Medium, ReturnMetric::KbPlus));
    assert(calcs[7] == Calculator::CsrSecCtpCurvature(Scenario::Medium, ReturnMetric::KbMinus));
    assert(calcs[10] == Calculator::CsrSecCtpCurvature(Scenario::Medium, ReturnMetric::CapitalCharge));
    assert(calcs[19] == Calculator::CsrSecCtpCurvature(Scenario::High, ReturnMetric::Sb));
    assert(calcs[18] == Calculator::CsrSecCtpCurvature(Scenario::High, ReturnMetric::Kb));
    assert(calcs[16] == Calculator::CsrSecCtpCurvature(Scenario::High, ReturnMetric::KbPlus));
    assert(calcs[17] == Calculator::CsrSecCtpCurvature(Scenario::High, ReturnMetric::KbMinus));
    assert(calcs[20] == Calculator::CsrSecCtpCurvature(Scenario::High, ReturnMetric::CapitalCharge));
    assert(calcs[4] == Calculator::CsrSecCtpCvrUp);
    assert(calcs[5] == Calculator::CsrSecCtpCvrDown);
    assert(calcs[2] == Calculator::CsrSecCtpPnlUp);
    assert(calcs[3] == Calculator::CsrSecCtpPnlDown);
}

/// Every measure of `csrsecctp_delta_catalogue` is named after what its calculator computes
/// (see `ctp_delta_measure_name`): a measure named after a scenario, and a metric, runs
/// the CTP delta calculation in that scenario and for that metric; no two
/// measures share a calculator; and each calculation the names stand for
/// is offered. Each is aggregated as its calculation calls for (see
/// `ctp_delta_measure_aggregation`).
pub proof fn lemma_csrsecctp_delta_names_follow_calculators()
    ensures
        forall|i: int| 0 <= i < csrsecctp_delta_catalogue().len() ==> #[trigger] csrsecctp_delta_catalogue()[i].name == ctp_delta_measure_name(csrsecctp_delta_catalogue()[i].calculator),
        forall|i: int| 0 <= i < csrsecctp_delta_catalogue().len() ==> #[trigger] csrsecctp_delta_catalogue()[i].aggregation == ctp_delta_measure_aggregation(csrsecctp_delta_catalogue()[i].calculator),
        forall|i: int, j: int| 0 <= i < j < csrsecctp_delta_catalogue().len() ==> #[trigger] csrsecctp_delta_catalogue()[i].calculator != #[trigger] csrsecctp_delta_catalogue()[j].calculator,
        csrsecctp_delta_catalogue().map_values(|v: MeasureView| v.calculator).contains(Calculator::CsrSecCtpDelta(Scenario::Low, ReturnMetric::Kb)),
        csrsecctp_delta_catalogue().map_values(|v: MeasureView| v.calculator).contains(Calculator::CsrSecCtpDelta(Scenario::Low, ReturnMetric::CapitalCharge)),
        csrsecctp_delta_catalogue().map_values(|v: MeasureView| v.calculator).contains(Calculator::CsrSecCtpDelta(Scenario::Medium, ReturnMetric::Kb)),
        csrsecctp_delta_catalogue().map_values(|v: MeasureView| v.calculator).contains(Calculator::CsrSecCtpDelta(Scenario::Medium, ReturnMetric::CapitalCharge)),
        csrsecctp_delta_catalogue().map_values(|v: MeasureView| v.calculator).contains(Calculator::CsrSecCtpDelta(Scenario::High, ReturnMetric::Kb)),
        csrsecctp_delta_catalogue().map_values(|v: MeasureView| v.calculator).contains(Calculator::CsrSecCtpDelta(Scenario::High, ReturnMetric::CapitalCharge)),
        csrsecctp_delta_catalogue().map_values(|v: MeasureView| v.calculator).contains(Calculator::CsrSecCtpDelta(Scenario::Low, ReturnMetric::Sb)),
{
    let cat = csrsecctp_delta_catalogue();
    reveal_strlit("CSR_secCTP_DeltaSens");
    reveal_strlit("CSR_secCTP_DeltaSens_Weighted");
    reveal_strlit("CSR_secCTP_DeltaSb");
    reveal_strlit("CSR_secCTP_DeltaKb_Low");
    reveal_strlit("CSR_secCTP_DeltaKb_Medium");
    reveal_strlit("CSR_secCTP_DeltaKb_High");
    reveal_strlit("CSR_secCTP_DeltaCharge_Low");
    reveal_strlit("CSR_secCTP_DeltaCharge_Medium");
    reveal_strlit("CSR_secCTP_DeltaCharge_High");
    reveal_strlit("CSR_secCTP_DeltaCharge_MAX");
    reveal_strlit("CSR_secCTP_Delta");
    reveal_strlit("_");
    reveal_strlit("Low");
    reveal_strlit("Medium");
    reveal_strlit("High");
    reveal_strlit("Sb");
    reveal_strlit("Kb");
    reveal_strlit("KbPlus");
    reveal_strlit("KbMinus");
    reveal_strlit("Charge");
    assert forall|i: int| 0 <= i < cat.len() implies #[trigger] cat[i].name == ctp_delta_measure_name(cat[i].calculator) by {
        if i == 0 {
            assert(cat[0].name =~= ctp_delta_measure_name(cat[0].calculator));
        } else if i == 1 {
            assert(cat[1].name =~= ctp_delta_measure_name(cat[1].calculator));
        } else if i == 2 {
            assert(cat[2].name =~= ctp_delta_measure_name(cat[2].calculator));
        } else if i == 3 {
            assert(cat[3].name =~= ctp_delta_measure_name(cat[3].calculator));
        } else if i == 4 {
            assert(cat[4].name =~= ctp_delta_measure_name(cat[4].calculator));
        } else if i == 5 {
            assert(cat[5].name =~= ctp_delta_measure_name(cat[5].calculator));
        } else if i == 6 {
            assert(cat[6].name =~= ctp_delta_measure_name(cat[6].calculator));
        } else if i == 7 {
            assert(cat[7].name =~= ctp_delta_measure_name(cat[7].calculator));
        } else if i == 8 {
            assert(cat[8].name =~= ctp_delta_measure_name(cat[8].calculator));
        } else if i == 9 {
            assert(cat[9].name =~= ctp_delta_measure_name(cat[9].calculator));
        }
    }
    assert forall|i: int| 0 <= i < cat.len() implies #[trigger] cat[i].aggregation == ctp_delta_measure_aggregation(cat[i].calculator) by {
        if i == 0 {} else if i == 1 {} else if i == 2 {} else if i == 3 {} else if i == 4 {} else if i == 5 {} else if i == 6 {} else if i == 7 {} else if i == 8 {} else if i == 9 {}
    }
    lemma_csrsecctp_delta_catalogue();
    assert forall|i: int, j: int| 0 <= i < j < cat.len() implies cat[i].calculator != cat[j].calculator by {
        assert(cat[i].name == ctp_delta_measure_name(cat[i].calculator));
        assert(cat[j].name == ctp_delta_measure_name(cat[j].calculator));
    }
    let calcs = cat.map_values(|v: MeasureView| v.calculator);
    assert(calcs[3] == Calculator::CsrSecCtpDelta(Scenario::Low, ReturnMetric::Kb));
    assert(calcs[6] == Calculator::CsrSecCtpDelta(Scenario::Low, ReturnMetric::CapitalCharge));
    assert(calcs[4] == Calculator::CsrSecCtpDelta(Scenario::Medium, ReturnMetric::Kb));
    assert(calcs[7] == Calculator::CsrSecCtpDelta(Scenario::Medium, ReturnMetric::CapitalCharge));
    assert(calcs[5] == Calculator::CsrSecCtpDelta(Scenario::High, ReturnMetric::Kb));
    assert(calcs[8] == Calculator::CsrSecCtpDelta(Scenario::High, ReturnMetric::CapitalCharge));
    assert(calcs[2] == Calculator::CsrSecCtpDelta(Scenario::Low, ReturnMetric::Sb));
}

} // verus!
