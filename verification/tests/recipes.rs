use frtb_engine::calculators::calculator_recipe;
use frtb_engine::overrides::{override_key_name, param_source, ParamSource};
use frtb_engine::commodity::{
    commodity_delta_charge, commodity_delta_charge_inputs, commodity_delta_sens_weighted,
    commodity_delta_sens_weighted_tenor, commodity_tenor_column, total_commodity_delta_sens,
};
use frtb_engine::csr_nonsec_totals::{csrnonsec_total, csrnonsec_total_max};
use frtb_engine::csr_sec_ctp_curvature::{
    csrsecctp_curv_delta, csrsecctp_curv_delta_weighted, csrsecctp_curv_max,
    csrsecctp_curvature_charge, csrsecctp_cvr_down, csrsecctp_cvr_up, csrsecctp_pnl_down,
    csrsecctp_pnl_up,
};
use frtb_engine::csr_sec_ctp_delta::{
    csr_sec_ctp_delta_charge, csr_sec_ctp_delta_sens_weighted, csrsecctp_delta_max,
    total_csr_sec_ctp_delta_sens,
};
use frtb_engine::drc::drc_charge;
use frtb_engine::recipe::{
    Calculator, ChargeKind, ChargeRecipe, MeasureExpr, OverrideKey, Param, ScenarioParam,
};
use frtb_engine::types::{
    CalcParams, Column, Cvr, Jurisdiction, ReturnMetric, RiskCategory, RiskClass, Scenario,
};
use frtb_engine::vega::{
    com_vega_charge, csr_sec_nonctp_vega_charge, total_com_vega_sens, total_com_vega_sens_weighted,
    total_csr_sec_nonctp_vega_sens, total_csr_sec_nonctp_vega_sens_weighted,
};

const BCBS: CalcParams = CalcParams { jurisdiction: Jurisdiction::BCBS };
const CRR2: CalcParams = CalcParams { jurisdiction: Jurisdiction::CRR2 };

fn col(c: Column) -> Box<MeasureExpr> {
    Box::new(MeasureExpr::Column(c))
}

fn fill(e: MeasureExpr) -> Box<MeasureExpr> {
    Box::new(MeasureExpr::FillNullZero(Box::new(e)))
}

#[test]
fn drc_charge_adds_the_two_capital_charges() {
    assert_eq!(
        drc_charge(&BCBS),
        MeasureExpr::Add(col(Column::DrcNonSecCapitalCharge), col(Column::DrcSecNonCtpCapitalCharge))
    );
    assert_eq!(Column::DrcNonSecCapitalCharge.as_str(), "DRC nonSec CapitalCharge");
    assert_eq!(Column::DrcSecNonCtpCapitalCharge.as_str(), "DRC Sec nonCTP CapitalCharge");
}

#[test]
fn commodity_tenors_run_from_spot_to_thirty_years() {
    let names: Vec<&str> = (0..11).map(|i| commodity_tenor_column(i).as_str()).collect();
    assert_eq!(
        names,
        vec![
            "SensitivitySpot", "Sensitivity_025Y", "Sensitivity_05Y", "Sensitivity_1Y",
            "Sensitivity_2Y", "Sensitivity_3Y", "Sensitivity_5Y", "Sensitivity_10Y",
            "Sensitivity_15Y", "Sensitivity_20Y", "Sensitivity_30Y",
        ]
    );
}

#[test]
fn commodity_delta_sens_is_the_commodity_delta() {
    assert_eq!(total_commodity_delta_sens(&BCBS), MeasureExpr::RiskClassDeltaSens(RiskClass::Commodity));
}

#[test]
fn commodity_weighted_tenor_uses_its_own_weight() {
    assert_eq!(
        commodity_delta_sens_weighted_tenor(7),
        MeasureExpr::TenorWeightedSens(
            RiskCategory::Delta,
            RiskClass::Commodity,
            Column::Sensitivity10Y,
            Column::SensWeights,
            7
        )
    );
}

#[test]
fn commodity_weighted_total_sums_eleven_tenors() {
    let mut expected = *fill(commodity_delta_sens_weighted_tenor(0));
    for i in 1..11 {
        expected = MeasureExpr::Add(Box::new(expected), fill(commodity_delta_sens_weighted_tenor(i)));
    }
    assert_eq!(commodity_delta_sens_weighted(&BCBS), expected);
    assert_eq!(commodity_delta_sens_weighted(&CRR2), expected);
}

#[test]
fn commodity_charge_inputs_in_order() {
    let v = commodity_delta_charge_inputs();
    assert_eq!(v.len(), 15);
    assert_eq!(v[0], MeasureExpr::Column(Column::RiskClass));
    assert_eq!(v[1], MeasureExpr::Column(Column::RiskFactor));
    assert_eq!(v[2], MeasureExpr::Column(Column::CommodityLocation));
    assert_eq!(v[3], MeasureExpr::Column(Column::BucketBCBS));
    for i in 0..11 {
        assert_eq!(v[4 + i], commodity_delta_sens_weighted_tenor(i));
    }
}

#[test]
fn commodity_delta_charge_keeps_the_scenario() {
    assert_eq!(
        commodity_delta_charge(&CRR2, Scenario::High),
        MeasureExpr::Charge(ChargeRecipe::CommodityDelta {
            scenario: Scenario::High,
            bucket_rho: Param {
                key: OverrideKey::CommodityBaseDeltaRhoBucket,
                default: ScenarioParam::BaseComRhoCty,
            },
            tenor_rho: Param {
                key: OverrideKey::CommodityBaseDeltaRhoTenor,
                default: ScenarioParam::BaseComRhoTenor,
            },
            basis_rho: Param {
                key: OverrideKey::CommodityBaseDeltaRhoBasis,
                default: ScenarioParam::BaseComRhoBasisDiff,
            },
            gamma: Param { key: OverrideKey::CommodityDeltaGamma, default: ScenarioParam::ComGamma },
        })
    );
}

#[test]
fn commodity_delta_gamma_is_read_where_commodity_vega_reads_it() {
    let delta = commodity_delta_charge(&BCBS, Scenario::Low);
    let vega = com_vega_charge(&BCBS, Scenario::Low, ReturnMetric::CapitalCharge);
    let (
        MeasureExpr::Charge(ChargeRecipe::CommodityDelta { gamma: g1, .. }),
        MeasureExpr::Charge(ChargeRecipe::EquityVega { gamma: g2, .. }),
    ) = (delta, vega)
    else {
        panic!("unexpected recipes");
    };
    assert_eq!(g1, g2);
    assert_eq!(override_key_name(g1.key, "_low"), "commodity_delta_gamma_low");
}

#[test]
fn override_names_carry_the_scenario_suffix_where_read_per_scenario() {
    assert_eq!(
        override_key_name(OverrideKey::CommodityBaseDeltaRhoTenor, "_high"),
        "commodity_base_delta_rho_tenor_high"
    );
    assert_eq!(
        override_key_name(OverrideKey::CommodityBaseDeltaRhoBasis, ""),
        "commodity_base_delta_rho_basis"
    );
    assert_eq!(override_key_name(OverrideKey::BaseCsrCtpRatingGamma, "_high"), "base_csr_ctp_rating_gamma");
    assert_ne!(
        override_key_name(OverrideKey::CommodityDeltaGamma, "_low"),
        override_key_name(OverrideKey::CommodityDeltaGamma, "_medium")
    );
}

#[test]
fn calculators_build_what_their_functions_build() {
    for p in [BCBS, CRR2] {
        assert_eq!(calculator_recipe(Calculator::DrcCharge, &p), drc_charge(&p));
        assert_eq!(calculator_recipe(Calculator::TotalComVegaSensWeighted, &p), total_com_vega_sens_weighted(&p));
        assert_eq!(
            calculator_recipe(Calculator::ComVega(Scenario::Medium, ReturnMetric::Sb), &p),
            com_vega_charge(&p, Scenario::Medium, ReturnMetric::Sb)
        );
        assert_eq!(calculator_recipe(Calculator::CsrNonSecTotal(Scenario::High), &p), csrnonsec_total(&p, Scenario::High));
        assert_eq!(calculator_recipe(Calculator::CsrNonSecTotalMax, &p), csrnonsec_total_max(&p));
        assert_eq!(calculator_recipe(Calculator::CsrSecCtpCurvDeltaWeighted, &p), csrsecctp_curv_delta_weighted(&p));
        assert_eq!(
            calculator_recipe(Calculator::CsrSecCtpCurvature(Scenario::Low, ReturnMetric::KbPlus), &p),
            csrsecctp_curvature_charge(&p, Scenario::Low, ReturnMetric::KbPlus)
        );
        assert_eq!(calculator_recipe(Calculator::CsrSecCtpDeltaSensWeighted, &p), csr_sec_ctp_delta_sens_weighted(&p));
        assert_eq!(
            calculator_recipe(Calculator::CsrSecCtpDelta(Scenario::High, ReturnMetric::Kb), &p),
            csr_sec_ctp_delta_charge(&p, Scenario::High, ReturnMetric::Kb)
        );
        assert_eq!(calculator_recipe(Calculator::CsrSecCtpDeltaMax, &p), csrsecctp_delta_max(&p));
        assert_eq!(calculator_recipe(Calculator::CsrSecCtpCvrDown, &p), csrsecctp_cvr_down(&p));
    }
    assert_eq!(
        calculator_recipe(Calculator::CsrNonSecVegaCharge(Scenario::Low), &BCBS),
        MeasureExpr::CsrNonSecCapitalCharge(ChargeKind::Vega, Scenario::Low)
    );
    assert_ne!(
        calculator_recipe(Calculator::CsrSecCtpCurvDeltaWeighted, &BCBS),
        calculator_recipe(Calculator::CsrSecCtpCurvDeltaWeighted, &CRR2)
    );
}

#[test]
fn commodity_vega_sens_and_weighted() {
    let sens = MeasureExpr::RiskClassCategorySens(
        RiskCategory::Vega,
        RiskClass::Commodity,
        Box::new(MeasureExpr::TotalVegaCurvSens),
    );
    assert_eq!(total_com_vega_sens(&BCBS), sens);
    assert_eq!(
        total_com_vega_sens_weighted(&BCBS),
        MeasureExpr::Mul(Box::new(sens), Box::new(MeasureExpr::ListItem(Column::SensWeights, 0)))
    );
}

#[test]
fn commodity_vega_charge_recipe() {
    let e = com_vega_charge(&BCBS, Scenario::Low, ReturnMetric::Kb);
    assert_eq!(
        e,
        MeasureExpr::Charge(ChargeRecipe::EquityVega {
            scenario: Scenario::Low,
            metric: ReturnMetric::Kb,
            risk_class: RiskClass::Commodity,
            special_bucket: None,
            vega_rho: Param { key: OverrideKey::CommodityBaseOptMatVegaRho, default: ScenarioParam::BaseVegaRho },
            gamma: Param { key: OverrideKey::CommodityDeltaGamma, default: ScenarioParam::ComGamma },
            bucket_rho: Param {
                key: OverrideKey::CommodityBaseDeltaRhoBucket,
                default: ScenarioParam::BaseComDeltaRhoCty,
            },
        })
    );
    assert_eq!(OverrideKey::CommodityDeltaGamma.stem(), "commodity_delta_gamma");
    assert!(OverrideKey::CommodityDeltaGamma.per_scenario());
}

#[test]
fn sec_nonctp_vega_has_special_bucket_25() {
    let sens = MeasureExpr::RiskClassCategorySens(
        RiskCategory::Vega,
        RiskClass::CsrSecNonCtp,
        Box::new(MeasureExpr::TotalVegaCurvSens),
    );
    assert_eq!(total_csr_sec_nonctp_vega_sens(&BCBS), sens);
    assert_eq!(
        total_csr_sec_nonctp_vega_sens_weighted(&CRR2),
        MeasureExpr::Mul(Box::new(sens), Box::new(MeasureExpr::ListItem(Column::SensWeights, 0)))
    );
    match csr_sec_nonctp_vega_charge(&BCBS, Scenario::Medium, ReturnMetric::CapitalCharge) {
        MeasureExpr::Charge(ChargeRecipe::EquityVega { special_bucket, risk_class, gamma, bucket_rho, .. }) => {
            assert_eq!(special_bucket, Some("25"));
            assert_eq!(risk_class, RiskClass::CsrSecNonCtp);
            assert_eq!(gamma.key, OverrideKey::CsrSecNonCtpVegaGamma);
            assert_eq!(gamma.default, ScenarioParam::CsrSecNonCtpGamma);
            assert_eq!(bucket_rho.key.stem(), "base_csr_sec_nonctp_rho_diff_name_bucket");
            assert!(!bucket_rho.key.per_scenario());
        }
        other => panic!("unexpected recipe {:?}", other),
    }
}

#[test]
fn csr_nonsec_totals_add_three_charges() {
    assert_eq!(
        csrnonsec_total(&BCBS, Scenario::Medium),
        MeasureExpr::TotalSum([
            Calculator::CsrNonSecDeltaCharge(Scenario::Medium),
            Calculator::CsrNonSecVegaCharge(Scenario::Medium),
            Calculator::CsrNonSecCurvatureCharge(Scenario::Medium),
        ])
    );
    assert_eq!(
        csrnonsec_total_max(&BCBS),
        MeasureExpr::Max([
            Calculator::CsrNonSecTotal(Scenario::Low),
            Calculator::CsrNonSecTotal(Scenario::Medium),
            Calculator::CsrNonSecTotal(Scenario::High),
        ])
    );
}

#[test]
fn ctp_curvature_follows_jurisdiction() {
    assert_eq!(csrsecctp_curv_delta(&BCBS), MeasureExpr::CurvDelta5(RiskClass::CsrSecCtp));
    assert_eq!(
        csrsecctp_curv_delta_weighted(&BCBS),
        MeasureExpr::Mul(Box::new(MeasureExpr::CurvDelta5(RiskClass::CsrSecCtp)), col(Column::CurvatureRiskWeight))
    );
    assert_eq!(
        csrsecctp_curv_delta_weighted(&CRR2),
        MeasureExpr::Mul(
            Box::new(MeasureExpr::CurvDelta5(RiskClass::CsrSecCtp)),
            col(Column::CurvatureRiskWeightCRR2)
        )
    );
    assert_eq!(csrsecctp_cvr_up(&BCBS), MeasureExpr::Cvr5(RiskClass::CsrSecCtp, Cvr::Up));
    assert_eq!(csrsecctp_cvr_down(&BCBS), MeasureExpr::Cvr5(RiskClass::CsrSecCtp, Cvr::Down));
    assert_eq!(
        csrsecctp_pnl_up(&BCBS),
        MeasureExpr::RiskClassCategorySens(RiskCategory::Delta, RiskClass::CsrSecCtp, col(Column::PnlUp))
    );
    assert_eq!(
        csrsecctp_pnl_down(&BCBS),
        MeasureExpr::RiskClassCategorySens(RiskCategory::Delta, RiskClass::CsrSecCtp, col(Column::PnlDown))
    );
    assert_eq!(Column::PnlUp.as_str(), "PnL_Up");
}

#[test]
fn ctp_curvature_charge_recipes() {
    let crr2 = csrsecctp_curvature_charge(&CRR2, Scenario::Low, ReturnMetric::KbPlus);
    assert_eq!(
        crr2,
        MeasureExpr::Charge(ChargeRecipe::CsrNonSecCurvature {
            scenario: Scenario::Low,
            metric: ReturnMetric::KbPlus,
            risk_class: RiskClass::CsrSecCtp,
            weight: Column::CurvatureRiskWeightCRR2,
            bucket: Column::BucketCRR2,
            special_bucket: None,
            name_rho: Param {
                key: OverrideKey::CsrCtpCurvDiffNameRhoPerBucket,
                default: ScenarioParam::CsrCtpCurvDiffNameRhoPerBucketCrr2,
            },
            gamma: Param { key: OverrideKey::CsrCtpCurvGamma, default: ScenarioParam::CsrCtpCurvGammaCrr2 },
        })
    );
    match csrsecctp_curvature_charge(&BCBS, Scenario::High, ReturnMetric::Sb) {
        MeasureExpr::Charge(ChargeRecipe::CsrNonSecCurvature { weight, bucket, gamma, .. }) => {
            assert_eq!(weight, Column::CurvatureRiskWeight);
            assert_eq!(bucket, Column::BucketBCBS);
            assert_eq!(gamma.default, ScenarioParam::CsrCtpCurvGammaBcbs);
        }
        other => panic!("unexpected recipe {:?}", other),
    }
    assert_eq!(
        csrsecctp_curv_max(&BCBS),
        MeasureExpr::Max([
            Calculator::CsrSecCtpCurvature(Scenario::Low, ReturnMetric::CapitalCharge),
            Calculator::CsrSecCtpCurvature(Scenario::Medium, ReturnMetric::CapitalCharge),
            Calculator::CsrSecCtpCurvature(Scenario::High, ReturnMetric::CapitalCharge),
        ])
    );
}

#[test]
fn ctp_delta_sens_and_weighted_by_jurisdiction() {
    assert_eq!(
        total_csr_sec_ctp_delta_sens(&BCBS),
        MeasureExpr::RiskClassCategorySens(
            RiskCategory::Delta,
            RiskClass::CsrSecCtp,
            Box::new(MeasureExpr::TotalDeltaSens)
        )
    );
    let tenors = [
        Column::Sensitivity05Y,
        Column::Sensitivity1Y,
        Column::Sensitivity3Y,
        Column::Sensitivity5Y,
        Column::Sensitivity10Y,
    ];
    for (params, weights) in [(BCBS, Column::SensWeights), (CRR2, Column::SensWeightsCRR2)] {
        let term = |i: usize| {
            MeasureExpr::TenorWeightedSens(RiskCategory::Delta, RiskClass::CsrSecCtp, tenors[i], weights, i)
        };
        let mut expected = *fill(term(0));
        for i in 1..5 {
            expected = MeasureExpr::Add(Box::new(expected), fill(term(i)));
        }
        assert_eq!(csr_sec_ctp_delta_sens_weighted(&params), expected);
    }
}

#[test]
fn ctp_delta_charge_bucket_counts() {
    match csr_sec_ctp_delta_charge(&BCBS, Scenario::Low, ReturnMetric::Sb) {
        MeasureExpr::Charge(ChargeRecipe::CsrNonSecDelta {
            n_buckets, bucket, weights, n_tenors, name_rho, gamma, tenor_rho, basis_rho, risk_category, ..
        }) => {
            assert_eq!(n_buckets, 16);
            assert_eq!(bucket, Column::BucketBCBS);
            assert_eq!(weights, Column::SensWeights);
            assert_eq!(n_tenors, 5);
            assert_eq!(name_rho.default, ScenarioParam::BaseCsrCtpRhoNameBcbs);
            assert_eq!(gamma.default, ScenarioParam::CsrCtpGamma);
            assert_eq!(tenor_rho.key.stem(), "base_csr_ctp_tenor_rho");
            assert_eq!(basis_rho.default, ScenarioParam::BaseCsrNonSecRhoBasis);
            assert_eq!(risk_category, RiskCategory::Delta);
        }
        other => panic!("unexpected recipe {:?}", other),
    }
    match csr_sec_ctp_delta_charge(&CRR2, Scenario::High, ReturnMetric::CapitalCharge) {
        MeasureExpr::Charge(ChargeRecipe::CsrNonSecDelta { n_buckets, bucket, weights, name_rho, gamma, .. }) => {
            assert_eq!(n_buckets, 18);
            assert_eq!(bucket, Column::BucketCRR2);
            assert_eq!(weights, Column::SensWeightsCRR2);
            assert_eq!(name_rho.default, ScenarioParam::BaseCsrNonSecRhoNameCrr2);
            assert_eq!(gamma.default, ScenarioParam::CsrCtpGammaCrr2);
        }
        other => panic!("unexpected recipe {:?}", other),
    }
    assert_eq!(
        csrsecctp_delta_max(&CRR2),
        MeasureExpr::Max([
            Calculator::CsrSecCtpDelta(Scenario::Low, ReturnMetric::CapitalCharge),
            Calculator::CsrSecCtpDelta(Scenario::Medium, ReturnMetric::CapitalCharge),
            Calculator::CsrSecCtpDelta(Scenario::High, ReturnMetric::CapitalCharge),
        ])
    );
}

fn entries(v: &[(&str, bool)]) -> Vec<(String, bool)> {
    v.iter().map(|(n, ok)| (n.to_string(), *ok)).collect()
}

fn ctp_gamma(p: &CalcParams, s: Scenario, m: ReturnMetric) -> Param {
    match csr_sec_ctp_delta_charge(p, s, m) {
        MeasureExpr::Charge(ChargeRecipe::CsrNonSecDelta { gamma, .. }) => gamma,
        e => panic!("unexpected recipe {e:?}"),
    }
}

#[test]
fn ctp_gamma_override_applies_in_every_scenario() {
    let req = entries(&[("other", true), ("base_csr_ctp_rating_gamma", true)]);
    for s in [Scenario::Low, Scenario::Medium, Scenario::High] {
        let g = ctp_gamma(&BCBS, s, ReturnMetric::CapitalCharge);
        assert_eq!(param_source(g, "_whatever", &req), ParamSource::Override(1));
    }
    let g = ctp_gamma(&CRR2, Scenario::Low, ReturnMetric::Kb);
    assert_eq!(param_source(g, "", &entries(&[])), ParamSource::Default(ScenarioParam::CsrCtpGammaCrr2));
}

#[test]
fn malformed_override_leaves_the_default() {
    let g = ctp_gamma(&BCBS, Scenario::High, ReturnMetric::Sb);
    let req = entries(&[("base_csr_ctp_rating_gamma", false), ("base_csr_ctp_rating_gamma", true)]);
    assert_eq!(param_source(g, "_high", &req), ParamSource::Default(ScenarioParam::CsrCtpGamma));
}

#[test]
fn per_scenario_override_is_read_only_in_its_scenario() {
    let p = Param { key: OverrideKey::CommodityDeltaGamma, default: ScenarioParam::ComGamma };
    let req = entries(&[("commodity_delta_gamma_low", true)]);
    assert_eq!(param_source(p, "_low", &req), ParamSource::Override(0));
    assert_eq!(param_source(p, "_high", &req), ParamSource::Default(ScenarioParam::ComGamma));
}
