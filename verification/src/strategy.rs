use crate::domain::{
    DimensionSet, Granularity, MetricsError, MetricsResult, SdkEventDimensions, SdkEventFilters,
    SdkEventMetrics, TimeRange,
};
use crate::query::{
    Aggregate, AnalyticsCollection, EventField, MetricQuery, QueryPlan, SdkEvent, SdkEventKind,
    Window,
};
use vstd::prelude::*;

verus! {

/// What becomes of a requested dimension that a metric does not group by.
#[derive(Clone, Copy, Debug, PartialEq, Eq, Hash, Structural)]
pub enum DimensionPolicy {
    /// The dimension is left out of the query.
    Drop,
    /// The request is refused.
    Reject,
}

/// How one metric is computed: what it measures, over which events, and
/// which dimensions it can be broken out by.
#[derive(Clone, Copy, Debug, PartialEq, Eq, Hash, Structural)]
pub struct MetricStrategy {
    pub aggregate: Aggregate,
    pub window: Option<Window>,
    pub event: SdkEventKind,
    pub supported: DimensionSet,
    pub unsupported: DimensionPolicy,
}

/// The strategy of each metric. Every metric can be broken out by all six
/// dimensions, so no request names a dimension that is not supported.
pub open spec fn registered(metric: SdkEventMetrics) -> MetricStrategy {
    MetricStrategy {
        aggregate: match metric {
            SdkEventMetrics::AveragePaymentTime => Aggregate::Average { field: EventField::Latency },
            _ => Aggregate::Count,
        },
        window: None,
        event: match metric {
            SdkEventMetrics::PaymentAttempts => SdkEventKind::PaymentAttempt,
            SdkEventMetrics::PaymentMethodsCallCount => SdkEventKind::PaymentMethodsCall,
            SdkEventMetrics::SdkRenderedCount => SdkEventKind::SdkRendered,
            SdkEventMetrics::SdkInitiatedCount => SdkEventKind::SdkInitiated,
            SdkEventMetrics::PaymentMethodSelectedCount => SdkEventKind::PaymentMethodSelected,
            SdkEventMetrics::PaymentDataFilledCount => SdkEventKind::PaymentDataFilled,
            SdkEventMetrics::AveragePaymentTime => SdkEventKind::PaymentAttempt,
            SdkEventMetrics::ThreeDsMethodSkippedCount => SdkEventKind::ThreeDsMethodSkipped,
            SdkEventMetrics::ThreeDsMethodInvokedCount => SdkEventKind::ThreeDsMethodInvoked,
            SdkEventMetrics::ThreeDsMethodSuccessfulCount => SdkEventKind::ThreeDsMethodSuccessful,
            SdkEventMetrics::ThreeDsMethodUnsuccessfulCount => SdkEventKind::ThreeDsMethodUnsuccessful,
            SdkEventMetrics::AuthenticationUnsuccessfulCount => SdkEventKind::AuthenticationUnsuccessful,
            SdkEventMetrics::ThreeDsChallengeFlowCount => SdkEventKind::ThreeDsChallengeFlow,
            SdkEventMetrics::ThreeDsFrictionlessFlowCount => SdkEventKind::ThreeDsFrictionlessFlow,
        },
        supported: DimensionSet::every(),
        unsupported: DimensionPolicy::Drop,
    }
}

/// A strategy that counts the events of one kind, broken out by any
/// dimension.
fn counting(event: SdkEventKind) -> (strategy: MetricStrategy)
    ensures
        strategy == (MetricStrategy {
            aggregate: Aggregate::Count,
            window: None,
            event,
            supported: DimensionSet::every(),
            unsupported: DimensionPolicy::Drop,
        }),
{
    MetricStrategy {
        aggregate: Aggregate::Count,
        window: None,
        event,
        supported: DimensionSet::all(),
        unsupported: DimensionPolicy::Drop,
    }
}

impl SdkEventMetrics {
    /// The strategy that is registered for this metric.
    pub fn strategy(&self) -> (strategy: MetricStrategy)
        ensures
            strategy == registered(*self),
    {
        match self {
            SdkEventMetrics::PaymentAttempts => counting(SdkEventKind::PaymentAttempt),
            SdkEventMetrics::PaymentMethodsCallCount => counting(SdkEventKind::PaymentMethodsCall),
            SdkEventMetrics::SdkRenderedCount => counting(SdkEventKind::SdkRendered),
            SdkEventMetrics::SdkInitiatedCount => counting(SdkEventKind::SdkInitiated),
            SdkEventMetrics::PaymentMethodSelectedCount => counting(
                SdkEventKind::PaymentMethodSelected,
            ),
            SdkEventMetrics::PaymentDataFilledCount => counting(SdkEventKind::PaymentDataFilled),
            SdkEventMetrics::AveragePaymentTime => MetricStrategy {
                aggregate: Aggregate::Average { field: EventField::Latency },
                window: None,
                event: SdkEventKind::PaymentAttempt,
                supported: DimensionSet::all(),
                unsupported: DimensionPolicy::Drop,
            },
            SdkEventMetrics::ThreeDsMethodSkippedCount => counting(
                SdkEventKind::ThreeDsMethodSkipped,
            ),
            SdkEventMetrics::ThreeDsMethodInvokedCount => counting(
                SdkEventKind::ThreeDsMethodInvoked,
            ),
            SdkEventMetrics::ThreeDsMethodSuccessfulCount => counting(
                SdkEventKind::ThreeDsMethodSuccessful,
            ),
            SdkEventMetrics::ThreeDsMethodUnsuccessfulCount => counting(
                SdkEventKind::ThreeDsMethodUnsuccessful,
            ),
            SdkEventMetrics::AuthenticationUnsuccessfulCount => counting(
                SdkEventKind::AuthenticationUnsuccessful,
            ),
            SdkEventMetrics::ThreeDsChallengeFlowCount => counting(
                SdkEventKind::ThreeDsChallengeFlow,
            ),
            SdkEventMetrics::ThreeDsFrictionlessFlowCount => counting(
                SdkEventKind::ThreeDsFrictionlessFlow,
            ),
        }
    }
}

/// The dimensions that rows are grouped by: each requested dimension that
/// is supported, once, where it was first requested.
pub open spec fn group_keys(
    requested: Seq<SdkEventDimensions>,
    supported: Set<SdkEventDimensions>,
) -> Seq<SdkEventDimensions>
    decreases requested.len(),
{
    if requested.len() == 0 {
        Seq::empty()
    } else {
        let earlier = group_keys(requested.drop_last(), supported);
        let dimension = requested.last();
        if supported.contains(dimension) && !earlier.contains(dimension) {
            earlier.push(dimension)
        } else {
            earlier
        }
    }
}

/// The group keys are the requested dimensions that are supported, as a
/// set; none comes twice; and a key that was requested before another
/// comes before it.
pub proof fn lemma_group_keys(
    requested: Seq<SdkEventDimensions>,
    supported: Set<SdkEventDimensions>,
)
    ensures
        group_keys(requested, supported).no_duplicates(),
        forall|dimension: SdkEventDimensions|
            #[trigger] group_keys(requested, supported).contains(dimension) <==> (
            requested.contains(dimension) && supported.contains(dimension)),
        forall|a: int, b: int|
            0 <= a < b < group_keys(requested, supported).len() ==> exists|i: int|
                0 <= i < requested.len() && requested[i] == #[trigger] group_keys(
                    requested,
                    supported,
                )[a] && !requested.take(i + 1).contains(
                    #[trigger] group_keys(requested, supported)[b],
                ),
    decreases requested.len(),
{
    let keys = group_keys(requested, supported);
    if requested.len() > 0 {
        let front = requested.drop_last();
        let last = requested.last();
        let earlier = group_keys(front, supported);
        lemma_group_keys(front, supported);
        assert forall|dimension: SdkEventDimensions|
            #[trigger] keys.contains(dimension) <==> (requested.contains(dimension)
                && supported.contains(dimension)) by {
            let in_earlier = earlier.contains(dimension);
            if keys.contains(dimension) {
                let k = choose|k: int| 0 <= k < keys.len() && keys[k] == dimension;
                if k < earlier.len() {
                    assert(earlier[k] == dimension);
                    assert(earlier.contains(dimension));
                    let i = choose|i: int| 0 <= i < front.len() && front[i] == dimension;
                    assert(requested[i] == dimension);
                } else {
                    assert(dimension == last);
                    assert(requested[requested.len() - 1] == dimension);
                }
            }
            if requested.contains(dimension) && supported.contains(dimension) {
                let i = choose|i: int| 0 <= i < requested.len() && requested[i] == dimension;
                if i < front.len() {
                    assert(front[i] == dimension);
                    assert(front.contains(dimension));
                    let k = choose|k: int| 0 <= k < earlier.len() && earlier[k] == dimension;
                    assert(keys[k] == dimension);
                } else {
                    assert(dimension == last);
                    if earlier.contains(last) {
                        let k = choose|k: int| 0 <= k < earlier.len() && earlier[k] == last;
                        assert(keys[k] == last);
                    } else {
                        assert(keys[keys.len() - 1] == last);
                    }
                }
            }
        }
        assert forall|a: int, b: int| 0 <= a < b < keys.len() implies exists|i: int|
            0 <= i < requested.len() && requested[i] == #[trigger] keys[a] && !requested.take(
                i + 1,
            ).contains(#[trigger] keys[b]) by {
            if b < earlier.len() {
                let i = choose|i: int|
                    0 <= i < front.len() && front[i] == earlier[a] && !front.take(i + 1).contains(
                        earlier[b],
                    );
                assert(front.take(i + 1) =~= requested.take(i + 1));
                assert(requested[i] == keys[a]);
            } else {
                assert(keys[b] == last);
                assert(!earlier.contains(last));
                assert(earlier[a] == keys[a]);
                assert(earlier.contains(keys[a]));
                assert(front.contains(keys[a]));
                let i = choose|i: int| 0 <= i < front.len() && front[i] == keys[a];
                assert(requested[i] == keys[a]);
                let head = requested.take(i + 1);
                if head.contains(last) {
                    let j = choose|j: int| 0 <= j < head.len() && head[j] == last;
                    assert(front[j] == last);
                    assert(front.contains(last));
                    assert(supported.contains(last));
                    assert(earlier.contains(last));
                }
            }
        }
    }
}

impl MetricStrategy {
    /// Whether a request for these dimensions is refused: the strategy
    /// rejects what it does not support, and one of them is not supported.
    pub open spec fn rejects(&self, requested: Seq<SdkEventDimensions>) -> bool {
        self.unsupported == DimensionPolicy::Reject && exists|i: int|
            0 <= i < requested.len() && !self.supported@.contains(#[trigger] requested[i])
    }

    /// The query that the strategy makes of a request.
    pub open spec fn plan(
        &self,
        dimensions: Seq<SdkEventDimensions>,
        publishable_key: Seq<char>,
        filters: Map<SdkEventDimensions, Seq<Seq<char>>>,
        granularity: Option<Granularity>,
        time_range: TimeRange,
    ) -> QueryPlan {
        QueryPlan {
            collection: AnalyticsCollection::SdkEvents,
            aggregate: self.aggregate,
            window: self.window,
            event: self.event,
            publishable_key,
            filters,
            time_range,
            group_by: group_keys(dimensions, self.supported@),
            granularity,
        }
    }

    /// Makes the query for a request. The request is refused, with
    /// `QueryBuildError`, exactly when the strategy rejects dimensions that
    /// it does not support and one was requested.
    pub fn build_query<'a>(
        &self,
        dimensions: &[SdkEventDimensions],
        publishable_key: &'a str,
        filters: &'a SdkEventFilters,
        granularity: &Option<Granularity>,
        time_range: &TimeRange,
    ) -> (result: MetricsResult<MetricQuery<'a>>)
        ensures
            match result {
                Ok(query) => {
                    &&& !self.rejects(dimensions@)
                    &&& query@ == self.plan(
                        dimensions@,
                        publishable_key@,
                        filters@,
                        *granularity,
                        *time_range,
                    )
                    &&& query.publishable_key == publishable_key
                    &&& query.filters == filters
                },
                Err(error) => self.rejects(dimensions@) && error == MetricsError::QueryBuildError,
            },
    {
        let mut group_by: Vec<SdkEventDimensions> = Vec::new();
        let mut seen = DimensionSet::empty();
        let mut i: usize = 0;
        while i < dimensions.len()
            invariant
                i <= dimensions.len(),
                group_by@ == group_keys(dimensions@.take(i as int), self.supported@),
                forall|dimension: SdkEventDimensions|
                    seen@.contains(dimension) <==> group_by@.contains(dimension),
                self.unsupported == DimensionPolicy::Reject ==> forall|j: int|
                    0 <= j < i ==> self.supported@.contains(#[trigger] dimensions@[j]),
            decreases dimensions.len() - i,
        {
            let dimension = dimensions[i];
            proof {
                assert(dimensions@.take(i + 1).drop_last() =~= dimensions@.take(i as int));
                assert(dimensions@.take(i + 1).last() == dimension);
            }
            if self.supported.contains(dimension) {
                if !seen.contains(dimension) {
                    let ghost before = group_by@;
                    group_by.push(dimension);
                    seen.insert(dimension);
                    proof {
                        assert forall|other: SdkEventDimensions|
                            seen@.contains(other) <==> group_by@.contains(other) by {
                            if before.contains(other) {
                                let k = choose|k: int| 0 <= k < before.len() && before[k] == other;
                                assert(group_by@[k] == other);
                            }
                            if other == dimension {
                                assert(group_by@[before.len() as int] == other);
                            }
                            if group_by@.contains(other) {
                                let k = choose|k: int|
                                    0 <= k < group_by@.len() && group_by@[k] == other;
                                if k < before.len() {
                                    assert(before[k] == other);
                                }
                            }
                        }
                    }
                }
            } else {
                match self.unsupported {
                    DimensionPolicy::Reject => {
                        assert(!self.supported@.contains(dimensions@[i as int]));
                        return Err(MetricsError::QueryBuildError);
                    },
                    DimensionPolicy::Drop => {},
                }
            }
            i += 1;
        }
        proof {
            assert(dimensions@.take(i as int) =~= dimensions@);
        }
        Ok(
            MetricQuery {
                collection: AnalyticsCollection::SdkEvents,
                aggregate: self.aggregate,
                window: self.window,
                event: self.event,
                publishable_key,
                filters,
                time_range: *time_range,
                group_by,
                granularity: *granularity,
            },
        )
    }
}

/// The query of a request is made of the request alone: the same strategy
/// and the same request give the same query, columns and group keys in the
/// same order, and the same refusal.
pub proof fn lemma_plan_deterministic(
    strategy: MetricStrategy,
    again: MetricStrategy,
    dimensions: Seq<SdkEventDimensions>,
    dimensions_again: Seq<SdkEventDimensions>,
    publishable_key: Seq<char>,
    publishable_key_again: Seq<char>,
    filters: Map<SdkEventDimensions, Seq<Seq<char>>>,
    filters_again: Map<SdkEventDimensions, Seq<Seq<char>>>,
    granularity: Option<Granularity>,
    granularity_again: Option<Granularity>,
    time_range: TimeRange,
    time_range_again: TimeRange,
)
    requires
        strategy == again,
        dimensions =~= dimensions_again,
        publishable_key =~= publishable_key_again,
        filters =~= filters_again,
        granularity == granularity_again,
        time_range == time_range_again,
    ensures
        strategy.rejects(dimensions) == again.rejects(dimensions_again),
        strategy.plan(dimensions, publishable_key, filters, granularity, time_range) == again.plan(
            dimensions_again,
            publishable_key_again,
            filters_again,
            granularity_again,
            time_range_again,
        ),
{
}

/// A metric measures the events of its own kind and no others, whatever
/// the other metrics measure: asked the same request, two metrics differ in
/// the kind of event and in what they compute, and in nothing else.
pub proof fn lemma_metrics_isolated(
    metric: SdkEventMetrics,
    other: SdkEventMetrics,
    dimensions: Seq<SdkEventDimensions>,
    publishable_key: Seq<char>,
    filters: Map<SdkEventDimensions, Seq<Seq<char>>>,
    granularity: Option<Granularity>,
    time_range: TimeRange,
    event: SdkEvent,
)
    ensures
        ({
            let plan = registered(metric).plan(
                dimensions,
                publishable_key,
                filters,
                granularity,
                time_range,
            );
            let other_plan = registered(other).plan(
                dimensions,
                publishable_key,
                filters,
                granularity,
                time_range,
            );
            &&& plan.selects(event) ==> event.kind == registered(metric).event
            &&& plan.selects(event) <==> event.kind == registered(metric).event
                && other_plan.selects(SdkEvent { kind: registered(other).event, ..event })
            &&& plan == QueryPlan {
                aggregate: registered(metric).aggregate,
                window: registered(metric).window,
                event: registered(metric).event,
                ..other_plan
            }
        }),
{
}

/// The order in which dimensions are requested, and how often, decides the
/// order of the columns and nothing else: two requests for the same
/// dimensions group by the same dimensions and put every event in a bucket
/// with the same values.
pub proof fn lemma_order_is_presentation(
    strategy: MetricStrategy,
    dimensions: Seq<SdkEventDimensions>,
    reordered: Seq<SdkEventDimensions>,
    publishable_key: Seq<char>,
    filters: Map<SdkEventDimensions, Seq<Seq<char>>>,
    granularity: Option<Granularity>,
    time_range: TimeRange,
    event: SdkEvent,
)
    requires
        forall|dimension: SdkEventDimensions|
            dimensions.contains(dimension) <==> reordered.contains(dimension),
    ensures
        ({
            let plan = strategy.plan(dimensions, publishable_key, filters, granularity, time_range);
            let other = strategy.plan(reordered, publishable_key, filters, granularity, time_range);
            &&& strategy.rejects(dimensions) == strategy.rejects(reordered)
            &&& plan.group_by.to_set() == other.group_by.to_set()
            &&& plan.selects(event) == other.selects(event)
            &&& plan.bucket_of(event) == other.bucket_of(event)
        }),
{
    let plan = strategy.plan(dimensions, publishable_key, filters, granularity, time_range);
    let other = strategy.plan(reordered, publishable_key, filters, granularity, time_range);
    lemma_group_keys(dimensions, strategy.supported@);
    lemma_group_keys(reordered, strategy.supported@);
    assert(plan.group_by.to_set() =~= other.group_by.to_set());
    assert(plan.combination(event) =~= other.combination(event));
    if strategy.rejects(dimensions) {
        let i = choose|i: int|
            0 <= i < dimensions.len() && !strategy.supported@.contains(#[trigger] dimensions[i]);
        assert(dimensions.contains(dimensions[i]));
        let j = choose|j: int| 0 <= j < reordered.len() && reordered[j] == dimensions[i];
        assert(!strategy.supported@.contains(reordered[j]));
    }
    if strategy.rejects(reordered) {
        let i = choose|i: int|
            0 <= i < reordered.len() && !strategy.supported@.contains(#[trigger] reordered[i]);
        assert(reordered.contains(reordered[i]));
        let j = choose|j: int| 0 <= j < dimensions.len() && dimensions[j] == reordered[i];
        assert(!strategy.supported@.contains(dimensions[j]));
    }
}

/// Without a granularity the period is not cut into time buckets: two
/// events are measured in one bucket exactly when they have the same value
/// on every requested dimension that the strategy supports, whenever they
/// were emitted.
pub proof fn lemma_no_granularity_one_bucket_per_combination(
    strategy: MetricStrategy,
    dimensions: Seq<SdkEventDimensions>,
    publishable_key: Seq<char>,
    filters: Map<SdkEventDimensions, Seq<Seq<char>>>,
    time_range: TimeRange,
    first: SdkEvent,
    second: SdkEvent,
)
    ensures
        ({
            let plan = strategy.plan(dimensions, publishable_key, filters, None, time_range);
            &&& plan.granularity is None
            &&& plan.bucket_of(first).time_bucket is None
            &&& plan.bucket_of(first) == plan.bucket_of(second) <==> forall|
                dimension: SdkEventDimensions,
            |
                dimensions.contains(dimension) && strategy.supported@.contains(dimension)
                    ==> first.dimensions[dimension] == second.dimensions[dimension]
        }),
{
    let plan = strategy.plan(dimensions, publishable_key, filters, None, time_range);
    lemma_group_keys(dimensions, strategy.supported@);
    if plan.combination(first) == plan.combination(second) {
        assert forall|dimension: SdkEventDimensions|
            dimensions.contains(dimension) && strategy.supported@.contains(
                dimension,
            ) implies first.dimensions[dimension] == second.dimensions[dimension] by {
            assert(plan.group_by.contains(dimension));
            assert(plan.combination(first)[dimension] == first.dimensions[dimension]);
            assert(plan.combination(second)[dimension] == second.dimensions[dimension]);
        }
    }
    if forall|dimension: SdkEventDimensions|
        dimensions.contains(dimension) && strategy.supported@.contains(dimension)
            ==> first.dimensions[dimension] == second.dimensions[dimension] {
        assert(plan.combination(first) =~= plan.combination(second)) by {
            assert forall|dimension: SdkEventDimensions|
                plan.combination(first)[dimension] == plan.combination(second)[dimension] by {
                if plan.group_by.contains(dimension) {
                    assert(dimensions.contains(dimension) && strategy.supported@.contains(
                        dimension,
                    ));
                }
            }
        }
    }
}

} // verus!
