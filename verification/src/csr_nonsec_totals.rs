//! Totals of the non-securitisation credit spread risk charges.
use vstd::prelude::*;
use crate::recipe::{measure, measure_views, Calculator, MeasureExpr, MeasureSpec, MeasureView, PrecomputeFilter};
use crate::types::{Aggregation, CalcParams, RiskClass, Scenario};

verus! {

/// Total charge of a scenario: the sum of the delta, vega and curvature
/// charges of that same scenario.
pub fn csrnonsec_total(_params: &CalcParams, scenario: Scenario) -> (e: MeasureExpr)
    ensures
        e == MeasureExpr::TotalSum([
            Calculator::CsrNonSecDeltaCharge(scenario),
            Calculator::CsrNonSecVegaCharge(scenario),
            Calculator::CsrNonSecCurvatureCharge(scenario),
        ]),
{
    MeasureExpr::TotalSum([
        Calculator::CsrNonSecDeltaCharge(scenario),
        Calculator::CsrNonSecVegaCharge(scenario),
        Calculator::CsrNonSecCurvatureCharge(scenario),
    ])
}

/// The largest of the three scenarios' total charges (an analysis view).
pub fn csrnonsec_total_max(_params: &CalcParams) -> (e: MeasureExpr)
    ensures
        e == MeasureExpr::Max([
            Calculator::CsrNonSecTotal(Scenario::Low),
            Calculator::CsrNonSecTotal(Scenario::Medium),
            Calculator::CsrNonSecTotal(Scenario::High),
        ]),
{
    MeasureExpr::Max([
        Calculator::CsrNonSecTotal(Scenario::Low),
        Calculator::CsrNonSecTotal(Scenario::Medium),
        Calculator::CsrNonSecTotal(Scenario::High),
    ])
}

/// A total-charge measure: computed on the non-securitisation rows and
/// aggregated by taking the first value.
pub open spec fn csrnonsec_total_entry(name: Seq<char>, calculator: Calculator) -> MeasureView {
    MeasureView {
        name,
        calculator,
        aggregation: Some(Aggregation::First),
        precompute_filter: Some(PrecomputeFilter { risk_category: None, risk_class: RiskClass::CsrNonSec }),
    }
}

/// The total-charge measures, in the order they are offered.
pub open spec fn csrnonsec_total_catalogue() -> Seq<MeasureView> {
    seq![
        csrnonsec_total_entry("CSR nonSec TotalCharge Low"@, Calculator::CsrNonSecTotal(Scenario::Low)),
        csrnonsec_total_entry("CSR nonSec TotalCharge Medium"@, Calculator::CsrNonSecTotal(Scenario::Medium)),
        csrnonsec_total_entry("CSR nonSec TotalCharge High"@, Calculator::CsrNonSecTotal(Scenario::High)),
        csrnonsec_total_entry("CSR nonSec TotalCharge MAX"@, Calculator::CsrNonSecTotalMax),
    ]
}

/// The total-charge measures.
pub fn csrnonsec_total_measures() -> (res: Vec<MeasureSpec>)
    ensures
        measure_views(res@) == csrnonsec_total_catalogue(),
{
    let f = Some(PrecomputeFilter { risk_category: None, risk_class: RiskClass::CsrNonSec });
    let first = Some(Aggregation::First);
    let mut res: Vec<MeasureSpec> = Vec::new();
    res.push(measure("CSR nonSec TotalCharge Low", Calculator::CsrNonSecTotal(Scenario::Low), first, f));
    res.push(measure("CSR nonSec TotalCharge Medium", Calculator::CsrNonSecTotal(Scenario::Medium), first, f));
    res.push(measure("CSR nonSec TotalCharge High", Calculator::CsrNonSecTotal(Scenario::High), first, f));
    res.push(measure("CSR nonSec TotalCharge MAX", Calculator::CsrNonSecTotalMax, first, f));
    assert(measure_views(res@) =~= csrnonsec_total_catalogue());
    res
}

} // verus!
