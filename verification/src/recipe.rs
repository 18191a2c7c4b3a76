//! Recipes: plain-value descriptions of the column expressions and charge
//! calculations that a measure evaluates, and of the measures themselves.
use vstd::prelude::*;
use crate::types::{Aggregation, Column, Cvr, ReturnMetric, RiskCategory, RiskClass, Scenario};

verus! {

/// Scenario configuration field that holds the default value of a charge
/// parameter (a correlation, a correlation matrix or a gamma matrix).
#[derive(Clone, Copy, Debug, PartialEq, Eq, Structural)]
pub enum ScenarioParam {
    ComGamma,
    BaseComRhoCty,
    BaseComRhoBasisDiff,
    BaseComRhoTenor,
    BaseComDeltaRhoCty,
    BaseVegaRho,
    CsrSecNonCtpGamma,
    BaseCsrSecNonCtpRhoDiffName,
    CsrCtpCurvDiffNameRhoPerBucketBcbs,
    CsrCtpCurvDiffNameRhoPerBucketCrr2,
    CsrCtpCurvGammaBcbs,
    CsrCtpCurvGammaCrr2,
    BaseCsrCtpRhoTenor,
    BaseCsrCtpRhoNameBcbs,
    BaseCsrNonSecRhoNameCrr2,
    BaseCsrNonSecRhoBasis,
    CsrCtpGamma,
    CsrCtpGammaCrr2,
}

/// Key under which a request may override a charge parameter.
#[derive(Clone, Copy, Debug, PartialEq, Eq, Structural)]
pub enum OverrideKey {
    CommodityDeltaGamma,
    CommodityBaseDeltaRhoBucket,
    CommodityBaseDeltaRhoBasis,
    CommodityBaseDeltaRhoTenor,
    CommodityBaseOptMatVegaRho,
    CsrSecNonCtpVegaGamma,
    BaseCsrSecNonCtpRhoDiffNameBucket,
    BaseCsrSecNonCtpOptMatVegaRho,
    CsrCtpCurvGamma,
    CsrCtpCurvDiffNameRhoPerBucket,
    BaseCsrCtpTenorRho,
    BaseCsrCtpDiffNameRhoPerBucket,
    BaseCsrCtpDiffBasisRho,
    BaseCsrCtpRatingGamma,
}

/// Stem of an override key.
pub open spec fn override_key_text(k: OverrideKey) -> Seq<char> {
    match k {
        OverrideKey::CommodityDeltaGamma => "commodity_delta_gamma"@,
        OverrideKey::CommodityBaseDeltaRhoBucket => "commodity_base_delta_rho_bucket"@,
        OverrideKey::CommodityBaseDeltaRhoBasis => "commodity_base_delta_rho_basis"@,
        OverrideKey::CommodityBaseDeltaRhoTenor => "commodity_base_delta_rho_tenor"@,
        OverrideKey::CommodityBaseOptMatVegaRho => "commodity_base_opt_mat_vega_rho"@,
        OverrideKey::CsrSecNonCtpVegaGamma => "csr_sec_nonctp_vega_gamma"@,
        OverrideKey::BaseCsrSecNonCtpRhoDiffNameBucket => "base_csr_sec_nonctp_rho_diff_name_bucket"@,
        OverrideKey::BaseCsrSecNonCtpOptMatVegaRho => "base_csr_sec_nonctp_opt_mat_vega_rho"@,
        OverrideKey::CsrCtpCurvGamma => "csr_ctp_curv_gamma"@,
        OverrideKey::CsrCtpCurvDiffNameRhoPerBucket => "csr_ctp_curv_diff_name_rho_per_bucket"@,
        OverrideKey::BaseCsrCtpTenorRho => "base_csr_ctp_tenor_rho"@,
        OverrideKey::BaseCsrCtpDiffNameRhoPerBucket => "base_csr_ctp_diff_name_rho_per_bucket"@,
        OverrideKey::BaseCsrCtpDiffBasisRho => "base_csr_ctp_diff_basis_rho"@,
        OverrideKey::BaseCsrCtpRatingGamma => "base_csr_ctp_rating_gamma"@,
    }
}

/// Whether the scenario's suffix is appended to the stem to form the key.
pub open spec fn override_key_per_scenario(k: OverrideKey) -> bool {
    match k {
        OverrideKey::CommodityDeltaGamma => true,
        OverrideKey::CommodityBaseDeltaRhoBucket => true,
        OverrideKey::CommodityBaseDeltaRhoBasis => true,
        OverrideKey::CommodityBaseDeltaRhoTenor => true,
        OverrideKey::CommodityBaseOptMatVegaRho => true,
        OverrideKey::CsrSecNonCtpVegaGamma => true,
        OverrideKey::CsrCtpCurvGamma => true,
        OverrideKey::CsrCtpCurvDiffNameRhoPerBucket => true,
        _ => false,
    }
}

impl OverrideKey {
    /// Stem of the key.
    pub fn stem(&self) -> (s: &'static str)
        ensures
            s@ == override_key_text(*self),
    {
        match self {
            OverrideKey::CommodityDeltaGamma => "commodity_delta_gamma",
            OverrideKey::CommodityBaseDeltaRhoBucket => "commodity_base_delta_rho_bucket",
            OverrideKey::CommodityBaseDeltaRhoBasis => "commodity_base_delta_rho_basis",
            OverrideKey::CommodityBaseDeltaRhoTenor => "commodity_base_delta_rho_tenor",
            OverrideKey::CommodityBaseOptMatVegaRho => "commodity_base_opt_mat_vega_rho",
            OverrideKey::CsrSecNonCtpVegaGamma => "csr_sec_nonctp_vega_gamma",
            OverrideKey::BaseCsrSecNonCtpRhoDiffNameBucket => "base_csr_sec_nonctp_rho_diff_name_bucket",
            OverrideKey::BaseCsrSecNonCtpOptMatVegaRho => "base_csr_sec_nonctp_opt_mat_vega_rho",
            OverrideKey::CsrCtpCurvGamma => "csr_ctp_curv_gamma",
            OverrideKey::CsrCtpCurvDiffNameRhoPerBucket => "csr_ctp_curv_diff_name_rho_per_bucket",
            OverrideKey::BaseCsrCtpTenorRho => "base_csr_ctp_tenor_rho",
            OverrideKey::BaseCsrCtpDiffNameRhoPerBucket => "base_csr_ctp_diff_name_rho_per_bucket",
            OverrideKey::BaseCsrCtpDiffBasisRho => "base_csr_ctp_diff_basis_rho",
            OverrideKey::BaseCsrCtpRatingGamma => "base_csr_ctp_rating_gamma",
        }
    }

    /// Whether the key carries the scenario's suffix.
    pub fn per_scenario(&self) -> (b: bool)
        ensures
            b == override_key_per_scenario(*self),
    {
        match self {
            OverrideKey::CommodityDeltaGamma => true,
            OverrideKey::CommodityBaseDeltaRhoBucket => true,
            OverrideKey::CommodityBaseDeltaRhoBasis => true,
            OverrideKey::CommodityBaseDeltaRhoTenor => true,
            OverrideKey::CommodityBaseOptMatVegaRho => true,
            OverrideKey::CsrSecNonCtpVegaGamma => true,
            OverrideKey::CsrCtpCurvGamma => true,
            OverrideKey::CsrCtpCurvDiffNameRhoPerBucket => true,
            _ => false,
        }
    }
}

/// A charge parameter: looked up in the request under `key`, and taken
/// from the scenario's `default` field where the request has none.
#[derive(Clone, Copy, Debug, PartialEq, Eq, Structural)]
pub struct Param {
    pub key: OverrideKey,
    pub default: ScenarioParam,
}

/// The charge calculation that a capital-charge measure runs over the
/// sensitivities, with every choice it depends on.
#[allow(inconsistent_fields)]
#[derive(Clone, Copy, Debug, PartialEq, Eq)]
pub enum ChargeRecipe {
    /// Commodity delta charge: the correlation of different commodities per
    /// bucket, the tenor correlation, the correlation of different delivery
    /// locations, and the gamma between buckets.
    CommodityDelta { scenario: Scenario, bucket_rho: Param, tenor_rho: Param, basis_rho: Param, gamma: Param },
    /// Vega charge computed as for equities.
    EquityVega {
        scenario: Scenario,
        metric: ReturnMetric,
        risk_class: RiskClass,
        special_bucket: Option<&'static str>,
        vega_rho: Param,
        gamma: Param,
        bucket_rho: Param,
    },
    /// Curvature charge computed as for non-securitised credit spread risk.
    CsrNonSecCurvature {
        scenario: Scenario,
        metric: ReturnMetric,
        risk_class: RiskClass,
        weight: Column,
        bucket: Column,
        special_bucket: Option<usize>,
        name_rho: Param,
        gamma: Param,
    },
    /// Delta charge computed as for non-securitised credit spread risk;
    /// the tenor weights are items `0..n_tenors` of the list column `weights`.
    CsrNonSecDelta {
        scenario: Scenario,
        metric: ReturnMetric,
        risk_class: RiskClass,
        risk_category: RiskCategory,
        weights: Column,
        n_tenors: usize,
        bucket: Column,
        n_buckets: usize,
        special_bucket: Option<usize>,
        tenor_rho: Param,
        name_rho: Param,
        basis_rho: Param,
        gamma: Param,
    },
}

/// The scenario whose correlations a charge calculation uses.
pub open spec fn recipe_scenario(r: ChargeRecipe) -> Scenario {
    match r {
        ChargeRecipe::CommodityDelta { scenario, .. } => scenario,
        ChargeRecipe::EquityVega { scenario, .. } => scenario,
        ChargeRecipe::CsrNonSecCurvature { scenario, .. } => scenario,
        ChargeRecipe::CsrNonSecDelta { scenario, .. } => scenario,
    }
}

/// What a charge calculation hands back, where it can hand back more than
/// the capital charge.
pub open spec fn recipe_metric(r: ChargeRecipe) -> Option<ReturnMetric> {
    match r {
        ChargeRecipe::CommodityDelta { .. } => None,
        ChargeRecipe::EquityVega { metric, .. } => Some(metric),
        ChargeRecipe::CsrNonSecCurvature { metric, .. } => Some(metric),
        ChargeRecipe::CsrNonSecDelta { metric, .. } => Some(metric),
    }
}

/// The risk class whose rows a charge calculation reads.
pub open spec fn recipe_risk_class(r: ChargeRecipe) -> RiskClass {
    match r {
        ChargeRecipe::CommodityDelta { .. } => RiskClass::Commodity,
        ChargeRecipe::EquityVega { risk_class, .. } => risk_class,
        ChargeRecipe::CsrNonSecCurvature { risk_class, .. } => risk_class,
        ChargeRecipe::CsrNonSecDelta { risk_class, .. } => risk_class,
    }
}

/// Whether an expression is a charge calculation for the given scenario,
/// metric and risk class.
pub open spec fn is_charge_for(e: MeasureExpr, scenario: Scenario, metric: ReturnMetric, rc: RiskClass) -> bool {
    match e {
        MeasureExpr::Charge(r) => recipe_scenario(r) == scenario && recipe_metric(r) == Some(metric)
            && recipe_risk_class(r) == rc,
        _ => false,
    }
}

/// Identifies the function that computes a measure.
#[derive(Clone, Copy, Debug, PartialEq, Eq, Structural)]
pub enum Calculator {
    DrcCharge,
    TotalComVegaSens,
    TotalComVegaSensWeighted,
    ComVega(Scenario, ReturnMetric),
    CsrNonSecDeltaCharge(Scenario),
    CsrNonSecVegaCharge(Scenario),
    CsrNonSecCurvatureCharge(Scenario),
    CsrNonSecTotal(Scenario),
    CsrNonSecTotalMax,
    CsrSecCtpCurvDelta,
    CsrSecCtpCurvDeltaWeighted,
    CsrSecCtpPnlUp,
    CsrSecCtpPnlDown,
    CsrSecCtpCvrUp,
    CsrSecCtpCvrDown,
    CsrSecCtpCurvature(Scenario, ReturnMetric),
    CsrSecCtpCurvMax,
    TotalCsrSecCtpDeltaSens,
    CsrSecCtpDeltaSensWeighted,
    CsrSecCtpDelta(Scenario, ReturnMetric),
    CsrSecCtpDeltaMax,
}

/// A column expression evaluated per row of the sensitivities data set.
#[derive(Debug, PartialEq)]
pub enum MeasureExpr {
    /// The column itself.
    Column(Column),
    /// Item `index` of a list-valued column.
    ListItem(Column, usize),
    /// Total delta sensitivity of rows of the risk class, null elsewhere.
    RiskClassDeltaSens(RiskClass),
    /// The inner expression on rows of the risk category and class.
    RiskClassCategorySens(RiskCategory, RiskClass, Box<MeasureExpr>),
    /// Sum of the tenor sensitivities of a row.
    TotalDeltaSens,
    /// Sum of the vega/curvature sensitivities of a row.
    TotalVegaCurvSens,
    /// Tenor sensitivity of rows of the category and class, times item
    /// `index` of the weights column.
    TenorWeightedSens(RiskCategory, RiskClass, Column, Column, usize),
    /// Curvature delta over the five credit tenors.
    CurvDelta5(RiskClass),
    /// Curvature risk over the five credit tenors in one direction.
    Cvr5(RiskClass, Cvr),
    Add(Box<MeasureExpr>, Box<MeasureExpr>),
    Mul(Box<MeasureExpr>, Box<MeasureExpr>),
    /// The inner expression with nulls read as zero.
    FillNullZero(Box<MeasureExpr>),
    /// Sum of three measures, each computed as its calculator does.
    TotalSum([Calculator; 3]),
    /// Largest of three measures, each computed as its calculator does.
    Max([Calculator; 3]),
    /// A charge calculation, broadcast to every row.
    Charge(ChargeRecipe),
    /// The non-securitised credit spread charge of one kind in a scenario,
    /// as the non-securitised charge modules compute it.
    CsrNonSecCapitalCharge(ChargeKind, Scenario),
}

/// The three sensitivities-based charges of a risk class.
#[derive(Clone, Copy, Debug, PartialEq, Eq, Structural)]
pub enum ChargeKind {
    Delta,
    Vega,
    Curvature,
}

/// Restriction on the rows that a measure is computed on.
#[derive(Clone, Copy, Debug, PartialEq, Eq, Structural)]
pub struct PrecomputeFilter {
    pub risk_category: Option<RiskCategory>,
    pub risk_class: RiskClass,
}

/// A measure that the engine offers: its name, how it is computed and
/// aggregated, and the rows it is computed on.
#[derive(Clone, Debug, PartialEq)]
pub struct MeasureSpec {
    pub name: String,
    pub calculator: Calculator,
    pub aggregation: Option<Aggregation>,
    pub precompute_filter: Option<PrecomputeFilter>,
}

/// Plain-value view of a measure.
pub struct MeasureView {
    pub name: Seq<char>,
    pub calculator: Calculator,
    pub aggregation: Option<Aggregation>,
    pub precompute_filter: Option<PrecomputeFilter>,
}

impl View for MeasureSpec {
    type V = MeasureView;

    open spec fn view(&self) -> MeasureView {
        MeasureView {
            name: self.name@,
            calculator: self.calculator,
            aggregation: self.aggregation,
            precompute_filter: self.precompute_filter,
        }
    }
}

/// A measure computed from other measures' results.
#[derive(Clone, Debug, PartialEq)]
pub struct DependantMeasureSpec {
    pub name: String,
    pub calculator: Calculator,
    pub depends_upon: Vec<(String, Aggregation)>,
}

/// The views of a list of measures.
pub open spec fn measure_views(ms: Seq<MeasureSpec>) -> Seq<MeasureView> {
    ms.map_values(|m: MeasureSpec| m@)
}

/// Builds one measure.
pub(crate) fn measure(
    name: &str,
    calculator: Calculator,
    aggregation: Option<Aggregation>,
    precompute_filter: Option<PrecomputeFilter>,
) -> (m: MeasureSpec)
    ensures
        m@ == (MeasureView { name: name@, calculator, aggregation, precompute_filter }),
{
    MeasureSpec { name: name.to_owned(), calculator, aggregation, precompute_filter }
}

/// Filter on the rows of one risk category and risk class.
pub open spec fn category_class_filter(cat: RiskCategory, rc: RiskClass) -> Option<PrecomputeFilter> {
    Some(PrecomputeFilter { risk_category: Some(cat), risk_class: rc })
}

} // verus!

verus! {

/// `fill_null(t(0), 0) + fill_null(t(1), 0) + ... + fill_null(t(n - 1), 0)`,
/// added from the left.
pub open spec fn fill_null_sum(t: spec_fn(int) -> MeasureExpr, n: nat) -> MeasureExpr
    decreases n,
{
    if n <= 1 {
        MeasureExpr::FillNullZero(Box::new(t(0)))
    } else {
        MeasureExpr::Add(
            Box::new(fill_null_sum(t, (n - 1) as nat)),
            Box::new(MeasureExpr::FillNullZero(Box::new(t(n - 1)))),
        )
    }
}

} // verus!
