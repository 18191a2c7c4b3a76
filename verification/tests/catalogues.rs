use std::collections::HashSet;

use frtb_engine::csr_nonsec_totals::csrnonsec_total_measures;
use frtb_engine::csr_sec_ctp_curvature::csrsecctp_curv_measures;
use frtb_engine::csr_sec_ctp_delta::csrsecctp_delta_measures;
use frtb_engine::drc::drc_total_measures;
use frtb_engine::recipe::{Calculator, MeasureSpec, PrecomputeFilter};
use frtb_engine::types::{Aggregation, ReturnMetric, RiskCategory, RiskClass, Scenario};
use frtb_engine::vega::com_vega_measures;

fn names(ms: &[MeasureSpec]) -> Vec<&str> {
    ms.iter().map(|m| m.name.as_str()).collect()
}

fn assert_distinct_and_filtered(ms: &[MeasureSpec], filter: PrecomputeFilter) {
    let set: HashSet<&str> = ms.iter().map(|m| m.name.as_str()).collect();
    assert_eq!(set.len(), ms.len());
    for m in ms {
        assert_eq!(m.precompute_filter, Some(filter));
    }
}

#[test]
fn drc_measures() {
    let ms = drc_total_measures();
    assert_eq!(ms.len(), 1);
    assert_eq!(ms[0].name, "DRC Charge");
    assert_eq!(ms[0].calculator, Calculator::DrcCharge);
    assert_eq!(
        ms[0].depends_upon,
        vec![
            ("DRC nonSec CapitalCharge".to_string(), Aggregation::Scalar),
            ("DRC Sec nonCTP CapitalCharge".to_string(), Aggregation::Scalar),
        ]
    );
    assert_eq!(Aggregation::Scalar.as_str(), "scalar");
}

#[test]
fn commodity_vega_measures() {
    let ms = com_vega_measures();
    assert_eq!(
        names(&ms),
        vec![
            "Commodity_VegaSens", "Commodity_VegaSens_Weighted", "Commodity_VegaSb",
            "Commodity_VegaKb_Low", "Commodity_VegaCharge_Low", "Commodity_VegaKb_Medium",
            "Commodity_VegaCharge_Medium", "Commodity_VegaKb_High", "Commodity_VegaCharge_High",
        ]
    );
    assert_distinct_and_filtered(
        &ms,
        PrecomputeFilter { risk_category: Some(RiskCategory::Vega), risk_class: RiskClass::Commodity },
    );
    assert_eq!(ms[0].aggregation, None);
    assert_eq!(ms[2].calculator, Calculator::ComVega(Scenario::Medium, ReturnMetric::Sb));
    assert_eq!(ms[2].aggregation, Some(Aggregation::First));
    assert_eq!(ms[8].calculator, Calculator::ComVega(Scenario::High, ReturnMetric::CapitalCharge));
    assert_eq!(RiskCategory::Vega.as_str(), "Vega");
    assert_eq!(RiskClass::Commodity.as_str(), "Commodity");
}

#[test]
fn csr_nonsec_total_measures() {
    let ms = csrnonsec_total_measures();
    assert_eq!(
        names(&ms),
        vec![
            "CSR nonSec TotalCharge Low", "CSR nonSec TotalCharge Medium",
            "CSR nonSec TotalCharge High", "CSR nonSec TotalCharge MAX",
        ]
    );
    assert_distinct_and_filtered(&ms, PrecomputeFilter { risk_category: None, risk_class: RiskClass::CsrNonSec });
    assert!(ms.iter().all(|m| m.aggregation == Some(Aggregation::First)));
    assert_eq!(ms[3].calculator, Calculator::CsrNonSecTotalMax);
    assert_eq!(RiskClass::CsrNonSec.as_str(), "CSR_nonSec");
}

#[test]
fn ctp_curvature_measures() {
    let ms = csrsecctp_curv_measures();
    assert_eq!(ms.len(), 22);
    assert_eq!(ms[0].name, "CSR Sec CTP CurvatureDelta");
    assert_eq!(ms[5].name, "CSR Sec CTP CVRdown");
    assert_eq!(ms[6].name, "CSR Sec CTP Curvature KbPlus Medium");
    assert_eq!(ms[6].calculator, Calculator::CsrSecCtpCurvature(Scenario::Medium, ReturnMetric::KbPlus));
    assert_eq!(ms[15].name, "CSR Sec CTP CurvatureCharge Low");
    assert_eq!(ms[15].calculator, Calculator::CsrSecCtpCurvature(Scenario::Low, ReturnMetric::CapitalCharge));
    assert_eq!(ms[21].name, "CSR Sec CTP CurvatureCharge MAX");
    assert_eq!(ms[21].calculator, Calculator::CsrSecCtpCurvMax);
    assert_distinct_and_filtered(
        &ms,
        PrecomputeFilter { risk_category: Some(RiskCategory::Delta), risk_class: RiskClass::CsrSecCtp },
    );
    assert!(ms[..6].iter().all(|m| m.aggregation.is_none()));
    assert!(ms[6..].iter().all(|m| m.aggregation == Some(Aggregation::Scalar)));
    assert_eq!(RiskClass::CsrSecCtp.as_str(), "CSR_Sec_CTP");
}

#[test]
fn ctp_delta_measures() {
    let ms = csrsecctp_delta_measures();
    assert_eq!(
        names(&ms),
        vec![
            "CSR_secCTP_DeltaSens", "CSR_secCTP_DeltaSens_Weighted", "CSR_secCTP_DeltaSb",
            "CSR_secCTP_DeltaKb_Low", "CSR_secCTP_DeltaKb_Medium", "CSR_secCTP_DeltaKb_High",
            "CSR_secCTP_DeltaCharge_Low", "CSR_secCTP_DeltaCharge_Medium",
            "CSR_secCTP_DeltaCharge_High", "CSR_secCTP_DeltaCharge_MAX",
        ]
    );
    assert_eq!(ms[2].calculator, Calculator::CsrSecCtpDelta(Scenario::Low, ReturnMetric::Sb));
    assert_eq!(ms[9].calculator, Calculator::CsrSecCtpDeltaMax);
    assert_distinct_and_filtered(
        &ms,
        PrecomputeFilter { risk_category: Some(RiskCategory::Delta), risk_class: RiskClass::CsrSecCtp },
    );
    assert_eq!(RiskCategory::Delta.as_str(), "Delta");
}
