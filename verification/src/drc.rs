//! Default risk charge totals.
use vstd::prelude::*;
use crate::recipe::{Calculator, DependantMeasureSpec, MeasureExpr};
use crate::types::{column_text, Aggregation, CalcParams, Column};

verus! {

/// `DRC nonSec CapitalCharge + DRC Sec nonCTP CapitalCharge`.
pub open spec fn drc_charge_expr() -> MeasureExpr {
    MeasureExpr::Add(
        Box::new(MeasureExpr::Column(Column::DrcNonSecCapitalCharge)),
        Box::new(MeasureExpr::Column(Column::DrcSecNonCtpCapitalCharge)),
    )
}

/// The total default risk charge: the sum of the non-securitisation and of
/// the securitisation (non-CTP) capital charges.
pub fn drc_charge(_params: &CalcParams) -> (e: MeasureExpr)
    ensures
        e == drc_charge_expr(),
{
    MeasureExpr::Add(
        Box::new(MeasureExpr::Column(Column::DrcNonSecCapitalCharge)),
        Box::new(MeasureExpr::Column(Column::DrcSecNonCtpCapitalCharge)),
    )
}

/// The measures of this module: `DRC Charge`, which depends upon the
/// `scalar` results of the two capital charges that it adds.
pub fn drc_total_measures() -> (res: Vec<DependantMeasureSpec>)
    ensures
        res.len() == 1,
        res[0].name@ == "DRC Charge"@,
        res[0].calculator == Calculator::DrcCharge,
        res[0].depends_upon.len() == 2,
        res[0].depends_upon[0].0@ == column_text(Column::DrcNonSecCapitalCharge),
        res[0].depends_upon[0].1 == Aggregation::Scalar,
        res[0].depends_upon[1].0@ == column_text(Column::DrcSecNonCtpCapitalCharge),
        res[0].depends_upon[1].1 == Aggregation::Scalar,
{
    let mut deps: Vec<(String, Aggregation)> = Vec::new();
    deps.push((Column::DrcNonSecCapitalCharge.as_str().to_owned(), Aggregation::Scalar));
    deps.push((Column::DrcSecNonCtpCapitalCharge.as_str().to_owned(), Aggregation::Scalar));
    let mut res: Vec<DependantMeasureSpec> = Vec::new();
    res.push(
        DependantMeasureSpec {
            name: "DRC Charge".to_owned(),
            calculator: Calculator::DrcCharge,
            depends_upon: deps,
        },
    );
    res
}

} // verus!
