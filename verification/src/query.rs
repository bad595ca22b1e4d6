use crate::domain::{Granularity, SdkEventDimensions, SdkEventFilters, TimeRange};
use vstd::prelude::*;

verus! {

/// The collections that a query can read.
#[derive(Clone, Copy, Debug, PartialEq, Eq, Hash, Structural)]
pub enum AnalyticsCollection {
    SdkEvents,
}

/// What happened when an event was emitted. A metric measures the events of
/// one kind.
#[derive(Clone, Copy, Debug, PartialEq, Eq, Hash, Structural)]
pub enum SdkEventKind {
    PaymentAttempt,
    PaymentMethodsCall,
    SdkRendered,
    SdkInitiated,
    PaymentMethodSelected,
    PaymentDataFilled,
    ThreeDsMethodSkipped,
    ThreeDsMethodInvoked,
    ThreeDsMethodSuccessful,
    ThreeDsMethodUnsuccessful,
    AuthenticationUnsuccessful,
    ThreeDsChallengeFlow,
    ThreeDsFrictionlessFlow,
}

/// The fields of an event that an expression can measure.
#[derive(Clone, Copy, Debug, PartialEq, Eq, Hash, Structural)]
pub enum EventField {
    PaymentId,
    SessionId,
    Latency,
}

/// The column of a row that holds a measured value.
#[derive(Clone, Copy, Debug, PartialEq, Eq, Hash, Structural)]
pub enum ValueColumn {
    Count,
    Total,
}

/// What is computed over the events of one bucket.
#[derive(Clone, Copy, Debug, PartialEq, Eq, Hash, Structural)]
pub enum Aggregate {
    /// The number of events.
    Count,
    /// The number of distinct values of a field.
    DistinctCount { field: EventField },
    /// The mean of a field.
    Average { field: EventField },
}

impl Aggregate {
    /// The column that the result goes to: a number of events is a count,
    /// a mean is a total.
    pub open spec fn column(&self) -> ValueColumn {
        match self {
            Aggregate::Count => ValueColumn::Count,
            Aggregate::DistinctCount { .. } => ValueColumn::Count,
            Aggregate::Average { .. } => ValueColumn::Total,
        }
    }

    pub fn fills(&self) -> (column: ValueColumn)
        ensures
            column == self.column(),
    {
        match self {
            Aggregate::Count => ValueColumn::Count,
            Aggregate::DistinctCount { .. } => ValueColumn::Count,
            Aggregate::Average { .. } => ValueColumn::Total,
        }
    }
}

/// The direction in which buckets are walked.
#[derive(Clone, Copy, Debug, PartialEq, Eq, Hash, Structural)]
pub enum Order {
    Ascending,
    Descending,
}

/// What is computed over the buckets of a result, walked by time bucket.
#[derive(Clone, Copy, Debug, PartialEq, Eq, Hash, Structural)]
pub enum Window {
    /// The running sum of a field.
    Sum { field: EventField, order: Order },
    /// The position of the bucket.
    RowNumber { order: Order },
}

/// A typed value that stands in a query.
#[derive(Clone, Copy, Debug, PartialEq, Eq, Hash, Structural)]
pub enum Literal {
    /// An instant, in nanoseconds since the Unix epoch.
    Timestamp(i128),
    Collection(AnalyticsCollection),
}

/// What a query is, whatever backend runs it.
pub struct QueryPlan {
    /// The collection that is read.
    pub collection: AnalyticsCollection,
    /// What is computed for each bucket.
    pub aggregate: Aggregate,
    /// What is computed over the buckets, if anything.
    pub window: Option<Window>,
    /// Only events of this kind are measured,
    pub event: SdkEventKind,
    /// of this tenant,
    pub publishable_key: Seq<char>,
    /// that pass these filters,
    pub filters: Map<SdkEventDimensions, Seq<Seq<char>>>,
    /// and were emitted in this period.
    pub time_range: TimeRange,
    /// The dimensions that rows are broken out by, in the order of the
    /// columns.
    pub group_by: Seq<SdkEventDimensions>,
    /// The width of the time buckets; `None` for one bucket over the whole
    /// period.
    pub granularity: Option<Granularity>,
}

/// An event as a query sees it.
pub struct SdkEvent {
    pub kind: SdkEventKind,
    /// The tenant that it belongs to.
    pub publishable_key: Seq<char>,
    /// When it was emitted, in nanoseconds since the Unix epoch.
    pub emitted_at: int,
    /// Its value on each dimension, where it has one.
    pub dimensions: Map<SdkEventDimensions, Option<Seq<char>>>,
}

/// Whether an event with these values passes the filters: on every
/// dimension that has a list, the event has a value and the list holds it.
pub open spec fn admits(
    filters: Map<SdkEventDimensions, Seq<Seq<char>>>,
    values: Map<SdkEventDimensions, Option<Seq<char>>>,
) -> bool {
    forall|dimension: SdkEventDimensions|
        (#[trigger] filters[dimension]).len() > 0 ==> (values[dimension] matches Some(value)
            && filters[dimension].contains(value))
}

/// The bucket of an event: the time bucket that it falls in, counted from
/// the Unix epoch, where the period is cut into time buckets, and its value
/// on each dimension that rows are broken out by.
pub struct EventBucket {
    pub time_bucket: Option<int>,
    pub dimension_values: Map<SdkEventDimensions, Option<Seq<char>>>,
}

impl QueryPlan {
    /// Whether the query measures `event`: it is of the kind, belongs to the
    /// tenant, passes every filter and was emitted in the period.
    pub open spec fn selects(&self, event: SdkEvent) -> bool {
        &&& event.kind == self.event
        &&& event.publishable_key == self.publishable_key
        &&& admits(self.filters, event.dimensions)
        &&& self.time_range.covers(event.emitted_at)
    }

    /// The dimension values of the bucket that `event` is measured in: the
    /// event's own on each dimension that rows are broken out by, and none
    /// on the others.
    pub open spec fn combination(&self, event: SdkEvent) -> Map<
        SdkEventDimensions,
        Option<Seq<char>>,
    > {
        Map::new(
            |dimension: SdkEventDimensions| true,
            |dimension: SdkEventDimensions|
                if self.group_by.contains(dimension) {
                    event.dimensions[dimension]
                } else {
                    None
                },
        )
    }

    /// The bucket that `event` is measured in. Time buckets start at the
    /// Unix epoch and each is as wide as the granularity.
    pub open spec fn bucket_of(&self, event: SdkEvent) -> EventBucket {
        EventBucket {
            time_bucket: match self.granularity {
                Some(granularity) => Some(
                    event.emitted_at / (granularity.width() * 1_000_000_000),
                ),
                None => None,
            },
            dimension_values: self.combination(event),
        }
    }
}

/// A query in the form that is handed from a metric to the translation:
/// nothing in it belongs to one backend.
#[derive(Debug)]
pub struct MetricQuery<'a> {
    pub collection: AnalyticsCollection,
    pub aggregate: Aggregate,
    pub window: Option<Window>,
    pub event: SdkEventKind,
    pub publishable_key: &'a str,
    pub filters: &'a SdkEventFilters,
    pub time_range: TimeRange,
    pub group_by: Vec<SdkEventDimensions>,
    pub granularity: Option<Granularity>,
}

impl<'a> View for MetricQuery<'a> {
    type V = QueryPlan;

    open spec fn view(&self) -> QueryPlan {
        QueryPlan {
            collection: self.collection,
            aggregate: self.aggregate,
            window: self.window,
            event: self.event,
            publishable_key: self.publishable_key@,
            filters: self.filters@,
            time_range: self.time_range,
            group_by: self.group_by@,
            granularity: self.granularity,
        }
    }
}

} // verus!
