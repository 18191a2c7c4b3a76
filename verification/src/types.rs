//! Enumerations shared by every recipe: scenarios, return metrics,
//! jurisdictions, risk classes, aggregations and the input columns.
use vstd::prelude::*;

verus! {

/// Correlation scenario of the sensitivities-based method
/// (low, medium and high correlations).
#[derive(Clone, Copy, Debug, PartialEq, Eq, Structural)]
pub enum Scenario {
    Low,
    Medium,
    High,
}

/// What a charge calculation hands back: the bucket sum `Sb`, the bucket
/// level charge `Kb` (for curvature also `Kb+` and `Kb-`), or the capital
/// charge of the risk class.
#[derive(Clone, Copy, Debug, PartialEq, Eq, Structural)]
pub enum ReturnMetric {
    Sb,
    Kb,
    KbPlus,
    KbMinus,
    CapitalCharge,
}

/// Regulatory rule set whose weights, buckets and correlations apply.
#[allow(non_camel_case_types)]
#[derive(Clone, Copy, Debug, PartialEq, Eq, Structural)]
pub enum Jurisdiction {
    BCBS,
    CRR2,
}

/// Direction of a curvature risk shock.
#[derive(Clone, Copy, Debug, PartialEq, Eq, Structural)]
pub enum Cvr {
    Up,
    Down,
}

/// Risk class of a sensitivity row.
#[derive(Clone, Copy, Debug, PartialEq, Eq, Structural)]
pub enum RiskClass {
    Commodity,
    CsrNonSec,
    CsrSecCtp,
    CsrSecNonCtp,
}

/// Risk category of a sensitivity row.
#[derive(Clone, Copy, Debug, PartialEq, Eq, Structural)]
pub enum RiskCategory {
    Delta,
    Vega,
}

/// How the engine aggregates a measure over a group.
#[derive(Clone, Copy, Debug, PartialEq, Eq, Structural)]
pub enum Aggregation {
    First,
    Scalar,
}

/// A column of the sensitivities data set (or of an already computed
/// measure) that a recipe reads.
#[derive(Clone, Copy, Debug, PartialEq, Eq, Structural)]
pub enum Column {
    RiskClass,
    RiskCategory,
    RiskFactor,
    CommodityLocation,
    BucketBCBS,
    BucketCRR2,
    SensWeights,
    SensWeightsCRR2,
    CurvatureRiskWeight,
    CurvatureRiskWeightCRR2,
    PnlUp,
    PnlDown,
    SensitivitySpot,
    Sensitivity025Y,
    Sensitivity05Y,
    Sensitivity1Y,
    Sensitivity2Y,
    Sensitivity3Y,
    Sensitivity5Y,
    Sensitivity10Y,
    Sensitivity15Y,
    Sensitivity20Y,
    Sensitivity30Y,
    DrcNonSecCapitalCharge,
    DrcSecNonCtpCapitalCharge,
}

/// Name under which the data set holds a risk class.
pub open spec fn risk_class_text(rc: RiskClass) -> Seq<char> {
    match rc {
        RiskClass::Commodity => "Commodity"@,
        RiskClass::CsrNonSec => "CSR_nonSec"@,
        RiskClass::CsrSecCtp => "CSR_Sec_CTP"@,
        RiskClass::CsrSecNonCtp => "CSR_Sec_nonCTP"@,
    }
}

/// Name under which the data set holds a risk category.
pub open spec fn risk_category_text(cat: RiskCategory) -> Seq<char> {
    match cat {
        RiskCategory::Delta => "Delta"@,
        RiskCategory::Vega => "Vega"@,
    }
}

/// Name of an aggregation as the engine knows it.
pub open spec fn aggregation_text(agg: Aggregation) -> Seq<char> {
    match agg {
        Aggregation::First => "first"@,
        Aggregation::Scalar => "scalar"@,
    }
}

/// Header of a column in the data set.
pub open spec fn column_text(c: Column) -> Seq<char> {
    match c {
        Column::RiskClass => "RiskClass"@,
        Column::RiskCategory => "RiskCategory"@,
        Column::RiskFactor => "RiskFactor"@,
        Column::CommodityLocation => "CommodityLocation"@,
        Column::BucketBCBS => "BucketBCBS"@,
        Column::BucketCRR2 => "BucketCRR2"@,
        Column::SensWeights => "SensWeights"@,
        Column::SensWeightsCRR2 => "SensWeightsCRR2"@,
        Column::CurvatureRiskWeight => "CurvatureRiskWeight"@,
        Column::CurvatureRiskWeightCRR2 => "CurvatureRiskWeightCRR2"@,
        Column::PnlUp => "PnL_Up"@,
        Column::PnlDown => "PnL_Down"@,
        Column::SensitivitySpot => "SensitivitySpot"@,
        Column::Sensitivity025Y => "Sensitivity_025Y"@,
        Column::Sensitivity05Y => "Sensitivity_05Y"@,
        Column::Sensitivity1Y => "Sensitivity_1Y"@,
        Column::Sensitivity2Y => "Sensitivity_2Y"@,
        Column::Sensitivity3Y => "Sensitivity_3Y"@,
        Column::Sensitivity5Y => "Sensitivity_5Y"@,
        Column::Sensitivity10Y => "Sensitivity_10Y"@,
        Column::Sensitivity15Y => "Sensitivity_15Y"@,
        Column::Sensitivity20Y => "Sensitivity_20Y"@,
        Column::Sensitivity30Y => "Sensitivity_30Y"@,
        Column::DrcNonSecCapitalCharge => "DRC nonSec CapitalCharge"@,
        Column::DrcSecNonCtpCapitalCharge => "DRC Sec nonCTP CapitalCharge"@,
    }
}

impl RiskClass {
    /// The risk class as it is spelled in the data set.
    pub fn as_str(&self) -> (s: &'static str)
        ensures
            s@ == risk_class_text(*self),
    {
        match self {
            RiskClass::Commodity => "Commodity",
            RiskClass::CsrNonSec => "CSR_nonSec",
            RiskClass::CsrSecCtp => "CSR_Sec_CTP",
            RiskClass::CsrSecNonCtp => "CSR_Sec_nonCTP",
        }
    }
}

impl RiskCategory {
    /// The risk category as it is spelled in the data set.
    pub fn as_str(&self) -> (s: &'static str)
        ensures
            s@ == risk_category_text(*self),
    {
        match self {
            RiskCategory::Delta => "Delta",
            RiskCategory::Vega => "Vega",
        }
    }
}

impl Aggregation {
    /// The aggregation's name.
    pub fn as_str(&self) -> (s: &'static str)
        ensures
            s@ == aggregation_text(*self),
    {
        match self {
            Aggregation::First => "first",
            Aggregation::Scalar => "scalar",
        }
    }
}

impl Column {
    /// The column's header.
    pub fn as_str(&self) -> (s: &'static str)
        ensures
            s@ == column_text(*self),
    {
        match self {
            Column::RiskClass => "RiskClass",
            Column::RiskCategory => "RiskCategory",
            Column::RiskFactor => "RiskFactor",
            Column::CommodityLocation => "CommodityLocation",
            Column::BucketBCBS => "BucketBCBS",
            Column::BucketCRR2 => "BucketCRR2",
            Column::SensWeights => "SensWeights",
            Column::SensWeightsCRR2 => "SensWeightsCRR2",
            Column::CurvatureRiskWeight => "CurvatureRiskWeight",
            Column::CurvatureRiskWeightCRR2 => "CurvatureRiskWeightCRR2",
            Column::PnlUp => "PnL_Up",
            Column::PnlDown => "PnL_Down",
            Column::SensitivitySpot => "SensitivitySpot",
            Column::Sensitivity025Y => "Sensitivity_025Y",
            Column::Sensitivity05Y => "Sensitivity_05Y",
            Column::Sensitivity1Y => "Sensitivity_1Y",
            Column::Sensitivity2Y => "Sensitivity_2Y",
            Column::Sensitivity3Y => "Sensitivity_3Y",
            Column::Sensitivity5Y => "Sensitivity_5Y",
            Column::Sensitivity10Y => "Sensitivity_10Y",
            Column::Sensitivity15Y => "Sensitivity_15Y",
            Column::Sensitivity20Y => "Sensitivity_20Y",
            Column::Sensitivity30Y => "Sensitivity_30Y",
            Column::DrcNonSecCapitalCharge => "DRC nonSec CapitalCharge",
            Column::DrcSecNonCtpCapitalCharge => "DRC Sec nonCTP CapitalCharge",
        }
    }
}

/// Parameters of a request that the recipes depend on.
#[derive(Clone, Copy, Debug, PartialEq, Eq)]
pub struct CalcParams {
    pub jurisdiction: Jurisdiction,
}

} // verus!
