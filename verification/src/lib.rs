//! Risk-charge measure recipes for the FRTB standardised approach.
pub mod types;
pub mod recipe;
pub mod drc;
pub mod commodity;
pub mod bucket;
pub mod grouping;
pub mod commodity_buckets;
pub mod vega;
pub mod csr_nonsec_totals;
pub mod jurisdiction;
pub mod csr_sec_ctp_curvature;
pub mod csr_sec_ctp_delta;
pub mod calculators;
pub mod errors;
pub mod overrides;
pub mod laws;
pub mod measure_laws;
