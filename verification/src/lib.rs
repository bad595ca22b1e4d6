//! Aggregated metrics over the events that a payment SDK emits.
//!
//! A caller names a metric, the dimensions to break it out by, a tenant,
//! filters, a granularity and a period. The metric's strategy makes a query
//! of the request; the query is put into the form of a backend, run there,
//! and every row that comes back is paired with the identifier of its
//! bucket.

pub mod backend;
pub mod bucket;
pub mod domain;
pub mod metrics;
pub mod query;
pub mod strategy;

pub use backend::{AnalyticsDataSource, LoadRow, NativeQuery, SdkEventMetricAnalytics};
pub use bucket::{SdkEventMetricRow, SdkEventMetricsBucketIdentifier};
pub use domain::{
    Granularity, MetricsError, MetricsResult, SdkEventDimensions, SdkEventFilters, SdkEventMetrics,
    TimeRange,
};
pub use metrics::SdkEventMetric;
pub use strategy::MetricStrategy;
