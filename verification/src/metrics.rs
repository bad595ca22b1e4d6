use crate::backend::{
    load_rows, reads, translate_query, translates, unreadable, untranslatable, NativeQuery,
    SdkEventMetricAnalytics,
};
use crate::bucket::{SdkEventMetricRow, SdkEventMetricsBucketIdentifier};
use crate::domain::{
    Granularity, MetricsError, MetricsResult, SdkEventDimensions, SdkEventFilters, SdkEventMetrics,
    TimeRange,
};
use crate::query::QueryPlan;
use crate::strategy::{registered, MetricStrategy};
use vstd::prelude::*;

verus! {

/// `rows` is something that the backend may answer to `native`.
pub open spec fn answers<T: SdkEventMetricAnalytics>(
    pool: &T,
    native: NativeQuery,
    rows: Vec<T::Row>,
) -> bool {
    call_ensures(T::load_results, (pool, &native), Ok::<Vec<T::Row>, T::Error>(rows))
}

/// The backend may fail to run `native`.
pub open spec fn declines<T: SdkEventMetricAnalytics>(pool: &T, native: NativeQuery) -> bool {
    exists|error: T::Error|
        call_ensures(T::load_results, (pool, &native), Err::<Vec<T::Row>, T::Error>(error))
}

/// The backend may fail to read one of `rows`.
pub open spec fn some_unreadable<T: SdkEventMetricAnalytics>(rows: Seq<T::Row>) -> bool {
    exists|i: int| 0 <= i < rows.len() && unreadable::<T>(#[trigger] rows[i])
}

/// `pairs` is `rows` as the backend reads them, one pair for each row and
/// in the same order, each beside the identifier of its bucket.
pub open spec fn bucketed<T: SdkEventMetricAnalytics>(
    rows: Seq<T::Row>,
    pairs: Seq<(SdkEventMetricsBucketIdentifier, SdkEventMetricRow)>,
) -> bool {
    &&& pairs.len() == rows.len()
    &&& forall|i: int|
        0 <= i < rows.len() ==> reads::<T>(rows[i], (#[trigger] pairs[i]).1) && pairs[i].0@
            == pairs[i].1.bucket()
}

/// What loading `plan` from `pool` can end in. The backend decides between
/// the four ends; each end says which of the backend's answers led to it.
///
/// - Rows: the backend wrote the plan in its own form, answered it, and
///   read each row of its answer.
/// - `QueryBuildError`: the backend may fail to write an expression of the
///   plan.
/// - `QueryExecutionError`: the backend wrote the plan and may fail to run
///   it.
/// - `RowParseError`: the backend answered and may fail to read a row of
///   its answer.
pub open spec fn loaded<T: SdkEventMetricAnalytics>(
    plan: QueryPlan,
    pool: &T,
    result: MetricsResult<Vec<(SdkEventMetricsBucketIdentifier, SdkEventMetricRow)>>,
) -> bool {
    match result {
        Ok(pairs) => exists|native: NativeQuery, rows: Vec<T::Row>|
            translates::<T>(plan, native) && #[trigger] answers(pool, native, rows)
                && bucketed::<T>(rows@, pairs@),
        Err(MetricsError::QueryBuildError) => untranslatable::<T>(plan),
        Err(MetricsError::QueryExecutionError) => exists|native: NativeQuery|
            translates::<T>(plan, native) && #[trigger] declines(pool, native),
        Err(MetricsError::RowParseError) => exists|native: NativeQuery, rows: Vec<T::Row>|
            translates::<T>(plan, native) && #[trigger] answers(pool, native, rows)
                && some_unreadable::<T>(rows@),
    }
}

/// What loading a request by `strategy` from `pool` can return. A request
/// that the strategy refuses ends in `QueryBuildError` and nothing else;
/// any other is planned and ends as the backend decides.
pub open spec fn returned<T: SdkEventMetricAnalytics>(
    strategy: MetricStrategy,
    dimensions: Seq<SdkEventDimensions>,
    publishable_key: Seq<char>,
    filters: Map<SdkEventDimensions, Seq<Seq<char>>>,
    granularity: Option<Granularity>,
    time_range: TimeRange,
    pool: &T,
    result: MetricsResult<Vec<(SdkEventMetricsBucketIdentifier, SdkEventMetricRow)>>,
) -> bool {
    if strategy.rejects(dimensions) {
        result matches Err(MetricsError::QueryBuildError)
    } else {
        loaded::<T>(
            strategy.plan(dimensions, publishable_key, filters, granularity, time_range),
            pool,
            result,
        )
    }
}

/// Puts each row beside the identifier of its bucket. The rows stay as they
/// are and in their order.
pub fn bucket_rows(rows: Vec<SdkEventMetricRow>) -> (pairs: Vec<
    (SdkEventMetricsBucketIdentifier, SdkEventMetricRow),
>)
    ensures
        pairs@.len() == rows@.len(),
        forall|i: int|
            0 <= i < rows@.len() ==> (#[trigger] pairs@[i]).1 == rows@[i] && pairs@[i].0@
                == rows@[i].bucket(),
{
    let mut pairs: Vec<(SdkEventMetricsBucketIdentifier, SdkEventMetricRow)> = Vec::new();
    let ghost all = rows@;
    for row in iter: rows
        invariant
            iter.seq() == all,
            pairs@.len() == iter.index(),
            forall|i: int|
                0 <= i < pairs@.len() ==> (#[trigger] pairs@[i]).1 == all[i] && pairs@[i].0@
                    == all[i].bucket(),
    {
        let identifier = SdkEventMetricsBucketIdentifier::of_row(&row);
        pairs.push((identifier, row));
    }
    pairs
}

/// Something that loads a metric from a backend.
pub trait SdkEventMetric<T: SdkEventMetricAnalytics> {
    /// The strategy by which the metric is computed.
    spec fn follows(&self) -> MetricStrategy;

    /// Loads the metric for a request: the aggregated rows, each beside the
    /// identifier of its bucket, in the order in which the backend gave
    /// them.
    ///
    /// A request that the strategy refuses ends in `QueryBuildError`. Any
    /// other is planned, handed to the backend and ends as the backend
    /// decides. One failure fails the whole call: no rows are returned
    /// beside an error.
    fn load_metrics(
        &self,
        dimensions: &[SdkEventDimensions],
        publishable_key: &str,
        filters: &SdkEventFilters,
        granularity: &Option<Granularity>,
        time_range: &TimeRange,
        pool: &T,
    ) -> (result: MetricsResult<Vec<(SdkEventMetricsBucketIdentifier, SdkEventMetricRow)>>)
        requires
            time_range.valid(),
        ensures
            returned::<T>(
                self.follows(),
                dimensions@,
                publishable_key@,
                filters@,
                *granularity,
                *time_range,
                pool,
                result,
            ),
    ;
}

impl<T: SdkEventMetricAnalytics> SdkEventMetric<T> for MetricStrategy {
    open spec fn follows(&self) -> MetricStrategy {
        *self
    }

    fn load_metrics(
        &self,
        dimensions: &[SdkEventDimensions],
        publishable_key: &str,
        filters: &SdkEventFilters,
        granularity: &Option<Granularity>,
        time_range: &TimeRange,
        pool: &T,
    ) -> (result: MetricsResult<Vec<(SdkEventMetricsBucketIdentifier, SdkEventMetricRow)>>) {
        let query = match self.build_query(
            dimensions,
            publishable_key,
            filters,
            granularity,
            time_range,
        ) {
            Ok(query) => query,
            Err(error) => {
                return Err(error);
            },
        };
        let ghost plan = query@;
        let native = match translate_query::<T>(query) {
            Ok(native) => native,
            Err(error) => {
                return Err(error);
            },
        };
        let ghost handed = native;
        let answer = pool.load_results(&native);
        let rows = match answer {
            Ok(rows) => rows,
            Err(_) => {
                assert(declines(pool, handed));
                return Err(MetricsError::QueryExecutionError);
            },
        };
        let ghost answered = rows;
        assert(answers(pool, handed, answered));
        let read = match load_rows::<T>(rows) {
            Ok(read) => read,
            Err(error) => {
                assert(some_unreadable::<T>(answered@));
                return Err(error);
            },
        };
        let pairs = bucket_rows(read);
        assert(bucketed::<T>(answered@, pairs@));
        Ok(pairs)
    }
}

impl<T: SdkEventMetricAnalytics> SdkEventMetric<T> for SdkEventMetrics {
    /// A metric follows the strategy that is registered for it.
    open spec fn follows(&self) -> MetricStrategy {
        registered(*self)
    }

    /// Hands the request, as it is, to the strategy that is registered for
    /// the metric, and returns what the strategy returns.
    fn load_metrics(
        &self,
        dimensions: &[SdkEventDimensions],
        publishable_key: &str,
        filters: &SdkEventFilters,
        granularity: &Option<Granularity>,
        time_range: &TimeRange,
        pool: &T,
    ) -> (result: MetricsResult<Vec<(SdkEventMetricsBucketIdentifier, SdkEventMetricRow)>>) {
        self.strategy().load_metrics(
            dimensions,
            publishable_key,
            filters,
            granularity,
            time_range,
            pool,
        )
    }
}

/// Loading a metric is loading by the strategy that is registered for it:
/// for every request, every backend and every result, the one can return
/// the result exactly when the other can.
pub proof fn lemma_dispatch_identity<T: SdkEventMetricAnalytics>(
    metric: SdkEventMetrics,
    dimensions: Seq<SdkEventDimensions>,
    publishable_key: Seq<char>,
    filters: Map<SdkEventDimensions, Seq<Seq<char>>>,
    granularity: Option<Granularity>,
    time_range: TimeRange,
    pool: &T,
    result: MetricsResult<Vec<(SdkEventMetricsBucketIdentifier, SdkEventMetricRow)>>,
)
    ensures
        <SdkEventMetrics as SdkEventMetric<T>>::follows(&metric) == registered(metric),
        returned::<T>(
            <SdkEventMetrics as SdkEventMetric<T>>::follows(&metric),
            dimensions,
            publishable_key,
            filters,
            granularity,
            time_range,
            pool,
            result,
        ) <==> returned::<T>(
            <MetricStrategy as SdkEventMetric<T>>::follows(&registered(metric)),
            dimensions,
            publishable_key,
            filters,
            granularity,
            time_range,
            pool,
            result,
        ),
{
}

} // verus!
