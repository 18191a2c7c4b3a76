//! Columns whose choice depends on the jurisdiction.
use vstd::prelude::*;
use crate::types::{Column, Jurisdiction};

verus! {

/// Bucket column of the jurisdiction.
pub open spec fn bucket_column_spec(j: Jurisdiction) -> Column {
    match j {
        Jurisdiction::BCBS => Column::BucketBCBS,
        Jurisdiction::CRR2 => Column::BucketCRR2,
    }
}

/// List column of delta risk weights of the jurisdiction.
pub open spec fn sens_weights_column_spec(j: Jurisdiction) -> Column {
    match j {
        Jurisdiction::BCBS => Column::SensWeights,
        Jurisdiction::CRR2 => Column::SensWeightsCRR2,
    }
}

/// Curvature risk weight column of the jurisdiction.
pub open spec fn curvature_weight_column_spec(j: Jurisdiction) -> Column {
    match j {
        Jurisdiction::BCBS => Column::CurvatureRiskWeight,
        Jurisdiction::CRR2 => Column::CurvatureRiskWeightCRR2,
    }
}

/// Bucket column of the jurisdiction.
pub fn bucket_column(j: Jurisdiction) -> (c: Column)
    ensures
        c == bucket_column_spec(j),
{
    match j {
        Jurisdiction::BCBS => Column::BucketBCBS,
        Jurisdiction::CRR2 => Column::BucketCRR2,
    }
}

/// List column of delta risk weights of the jurisdiction.
pub fn sens_weights_column(j: Jurisdiction) -> (c: Column)
    ensures
        c == sens_weights_column_spec(j),
{
    match j {
        Jurisdiction::BCBS => Column::SensWeights,
        Jurisdiction::CRR2 => Column::SensWeightsCRR2,
    }
}

/// Curvature risk weight column of the jurisdiction.
pub fn curvature_weight_column(j: Jurisdiction) -> (c: Column)
    ensures
        c == curvature_weight_column_spec(j),
{
    match j {
        Jurisdiction::BCBS => Column::CurvatureRiskWeight,
        Jurisdiction::CRR2 => Column::CurvatureRiskWeightCRR2,
    }
}

} // verus!
