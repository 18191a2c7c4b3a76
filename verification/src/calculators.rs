//! The expression that each calculator of the measure catalogues builds.
use vstd::prelude::*;
use crate::csr_nonsec_totals::{csrnonsec_total, csrnonsec_total_max};
use crate::csr_sec_ctp_curvature::{
    csrsecctp_curv_delta, csrsecctp_curv_delta_weighted, csrsecctp_curv_max,
    csrsecctp_curvature_charge, csrsecctp_curvature_recipe, csrsecctp_cvr_down, csrsecctp_cvr_up,
    csrsecctp_pnl_down, csrsecctp_pnl_up,
};
use crate::csr_sec_ctp_delta::{
    csr_sec_ctp_delta_charge, csr_sec_ctp_delta_recipe, csr_sec_ctp_delta_sens_weighted,
    csrsecctp_delta_max, ctp_weighted_tenor, total_csr_sec_ctp_delta_sens, CTP_TENORS,
};
use crate::drc::{drc_charge, drc_charge_expr};
use crate::jurisdiction::curvature_weight_column_spec;
use crate::recipe::{fill_null_sum, Calculator, ChargeKind, MeasureExpr};
use crate::types::{CalcParams, Column, Cvr, ReturnMetric, RiskCategory, RiskClass, Scenario};
use crate::vega::{
    com_vega_charge, com_vega_recipe, total_com_vega_sens, total_com_vega_sens_expr,
    total_com_vega_sens_weighted,
};

verus! {

/// The expression that calculator `c` builds under the parameters `p`.
pub open spec fn calculator_expr(c: Calculator, p: CalcParams) -> MeasureExpr {
    match c {
        Calculator::DrcCharge => drc_charge_expr(),
        Calculator::TotalComVegaSens => total_com_vega_sens_expr(),
        Calculator::TotalComVegaSensWeighted => MeasureExpr::Mul(
            Box::new(total_com_vega_sens_expr()),
            Box::new(MeasureExpr::ListItem(Column::SensWeights, 0)),
        ),
        Calculator::ComVega(s, m) => MeasureExpr::Charge(com_vega_recipe(s, m)),
        Calculator::CsrNonSecDeltaCharge(s) => MeasureExpr::CsrNonSecCapitalCharge(ChargeKind::Delta, s),
        Calculator::CsrNonSecVegaCharge(s) => MeasureExpr::CsrNonSecCapitalCharge(ChargeKind::Vega, s),
        Calculator::CsrNonSecCurvatureCharge(s) => MeasureExpr::CsrNonSecCapitalCharge(ChargeKind::Curvature, s),
        Calculator::CsrNonSecTotal(s) => MeasureExpr::TotalSum([
            Calculator::CsrNonSecDeltaCharge(s),
            Calculator::CsrNonSecVegaCharge(s),
            Calculator::CsrNonSecCurvatureCharge(s),
        ]),
        Calculator::CsrNonSecTotalMax => MeasureExpr::Max([
            Calculator::CsrNonSecTotal(Scenario::Low),
            Calculator::CsrNonSecTotal(Scenario::Medium),
            Calculator::CsrNonSecTotal(Scenario::High),
        ]),
        Calculator::CsrSecCtpCurvDelta => MeasureExpr::CurvDelta5(RiskClass::CsrSecCtp),
        Calculator::CsrSecCtpCurvDeltaWeighted => MeasureExpr::Mul(
            Box::new(MeasureExpr::CurvDelta5(RiskClass::CsrSecCtp)),
            Box::new(MeasureExpr::Column(curvature_weight_column_spec(p.jurisdiction))),
        ),
        Calculator::CsrSecCtpPnlUp => MeasureExpr::RiskClassCategorySens(
            RiskCategory::Delta,
            RiskClass::CsrSecCtp,
            Box::new(MeasureExpr::Column(Column::PnlUp)),
        ),
        Calculator::CsrSecCtpPnlDown => MeasureExpr::RiskClassCategorySens(
            RiskCategory::Delta,
            RiskClass::CsrSecCtp,
            Box::new(MeasureExpr::Column(Column::PnlDown)),
        ),
        Calculator::CsrSecCtpCvrUp => MeasureExpr::Cvr5(RiskClass::CsrSecCtp, Cvr::Up),
        Calculator::CsrSecCtpCvrDown => MeasureExpr::Cvr5(RiskClass::CsrSecCtp, Cvr::Down),
        Calculator::CsrSecCtpCurvature(s, m) => MeasureExpr::Charge(
            csrsecctp_curvature_recipe(p.jurisdiction, s, m),
        ),
        Calculator::CsrSecCtpCurvMax => MeasureExpr::Max([
            Calculator::CsrSecCtpCurvature(Scenario::Low, ReturnMetric::CapitalCharge),
            Calculator::CsrSecCtpCurvature(Scenario::Medium, ReturnMetric::CapitalCharge),
            Calculator::CsrSecCtpCurvature(Scenario::High, ReturnMetric::CapitalCharge),
        ]),
        Calculator::TotalCsrSecCtpDeltaSens => MeasureExpr::RiskClassCategorySens(
            RiskCategory::Delta,
            RiskClass::CsrSecCtp,
            Box::new(MeasureExpr::TotalDeltaSens),
        ),
        Calculator::CsrSecCtpDeltaSensWeighted => fill_null_sum(
            |i: int| ctp_weighted_tenor(p.jurisdiction, i),
            CTP_TENORS as nat,
        ),
        Calculator::CsrSecCtpDelta(s, m) => MeasureExpr::Charge(
            csr_sec_ctp_delta_recipe(p.jurisdiction, s, m),
        ),
        Calculator::CsrSecCtpDeltaMax => MeasureExpr::Max([
            Calculator::CsrSecCtpDelta(Scenario::Low, ReturnMetric::CapitalCharge),
            Calculator::CsrSecCtpDelta(Scenario::Medium, ReturnMetric::CapitalCharge),
            Calculator::CsrSecCtpDelta(Scenario::High, ReturnMetric::CapitalCharge),
        ]),
    }
}

/// Runs calculator `c`: the expression that the measure it stands in
/// evaluates under the parameters `p`.
pub fn calculator_recipe(c: Calculator, p: &CalcParams) -> (e: MeasureExpr)
    ensures
        e == calculator_expr(c, *p),
{
    match c {
        Calculator::DrcCharge => drc_charge(p),
        Calculator::TotalComVegaSens => total_com_vega_sens(p),
        Calculator::TotalComVegaSensWeighted => total_com_vega_sens_weighted(p),
        Calculator::ComVega(s, m) => com_vega_charge(p, s, m),
        Calculator::CsrNonSecDeltaCharge(s) => MeasureExpr::CsrNonSecCapitalCharge(ChargeKind::Delta, s),
        Calculator::CsrNonSecVegaCharge(s) => MeasureExpr::CsrNonSecCapitalCharge(ChargeKind::Vega, s),
        Calculator::CsrNonSecCurvatureCharge(s) => MeasureExpr::CsrNonSecCapitalCharge(ChargeKind::Curvature, s),
        Calculator::CsrNonSecTotal(s) => csrnonsec_total(p, s),
        Calculator::CsrNonSecTotalMax => csrnonsec_total_max(p),
        Calculator::CsrSecCtpCurvDelta => csrsecctp_curv_delta(p),
        Calculator::CsrSecCtpCurvDeltaWeighted => csrsecctp_curv_delta_weighted(p),
        Calculator::CsrSecCtpPnlUp => csrsecctp_pnl_up(p),
        Calculator::CsrSecCtpPnlDown => csrsecctp_pnl_down(p),
        Calculator::CsrSecCtpCvrUp => csrsecctp_cvr_up(p),
        Calculator::CsrSecCtpCvrDown => csrsecctp_cvr_down(p),
        Calculator::CsrSecCtpCurvature(s, m) => csrsecctp_curvature_charge(p, s, m),
        Calculator::CsrSecCtpCurvMax => csrsecctp_curv_max(p),
        Calculator::TotalCsrSecCtpDeltaSens => total_csr_sec_ctp_delta_sens(p),
        Calculator::CsrSecCtpDeltaSensWeighted => csr_sec_ctp_delta_sens_weighted(p),
        Calculator::CsrSecCtpDelta(s, m) => csr_sec_ctp_delta_charge(p, s, m),
        Calculator::CsrSecCtpDeltaMax => csrsecctp_delta_max(p),
    }
}

} // verus!
