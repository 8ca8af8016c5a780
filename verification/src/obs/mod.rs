//! Observability: the arithmetic and the text of the gateway's metrics.

pub mod families;
pub mod histograms;
pub mod labels;
pub mod metrics;
