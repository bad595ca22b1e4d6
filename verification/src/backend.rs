use crate::bucket::{text, SdkEventMetricRow};
use crate::domain::{Granularity, MetricsError, MetricsResult, SdkEventDimensions, SdkEventFilters};
use crate::query::{
    Aggregate, Literal, MetricQuery, QueryPlan, SdkEventKind, ValueColumn, Window,
};
use vstd::prelude::*;

verus! {

/// A query in the form of one backend. The expressions that backends write
/// differently are already in the backend's own words; what is left is plain
/// data for the backend to bind.
#[derive(Debug)]
pub struct NativeQuery<'a> {
    /// The collection that is read.
    pub collection: String,
    /// What is computed for each bucket.
    pub aggregate: String,
    /// The column of a row in which the backend is to return it.
    pub value_column: ValueColumn,
    /// What is computed over the buckets, if anything.
    pub window: Option<String>,
    /// The first instant of the period.
    pub range_start: String,
    /// The instant at which the period ends.
    pub range_end: String,
    /// The expression that cuts the period into time buckets, if it is cut.
    pub time_bucket: Option<String>,
    pub event: SdkEventKind,
    pub publishable_key: &'a str,
    pub filters: &'a SdkEventFilters,
    /// The dimensions that rows are broken out by, in the order of the
    /// columns.
    pub group_by: Vec<SdkEventDimensions>,
}

/// What a query in the form of a backend holds.
pub struct NativeText {
    pub collection: Seq<char>,
    pub aggregate: Seq<char>,
    pub value_column: ValueColumn,
    pub window: Option<Seq<char>>,
    pub range_start: Seq<char>,
    pub range_end: Seq<char>,
    pub time_bucket: Option<Seq<char>>,
    pub event: SdkEventKind,
    pub publishable_key: Seq<char>,
    pub filters: Map<SdkEventDimensions, Seq<Seq<char>>>,
    pub group_by: Seq<SdkEventDimensions>,
}

impl<'a> View for NativeQuery<'a> {
    type V = NativeText;

    open spec fn view(&self) -> NativeText {
        NativeText {
            collection: self.collection@,
            aggregate: self.aggregate@,
            value_column: self.value_column,
            window: text(self.window),
            range_start: self.range_start@,
            range_end: self.range_end@,
            time_bucket: text(self.time_bucket),
            event: self.event,
            publishable_key: self.publishable_key@,
            filters: self.filters@,
            group_by: self.group_by@,
        }
    }
}

/// A store of events that can run a query. It says how it writes each kind
/// of expression, runs a query in its own form, and hands back rows in its
/// own form. Nothing is promised of an implementation: what a caller learns
/// of a call is what the implementation itself ensures.
pub trait AnalyticsDataSource: Sized {
    /// A row as the backend returns it.
    type Row;

    /// Why the backend failed.
    type Error;

    /// Writes a typed value.
    fn literal_to_native(literal: &Literal) -> Result<String, Self::Error>;

    /// Writes what is computed for each bucket.
    fn aggregate_to_native(aggregate: &Aggregate) -> Result<String, Self::Error>;

    /// Writes what is computed over the buckets.
    fn window_to_native(window: &Window) -> Result<String, Self::Error>;

    /// Writes the expression that cuts time into buckets of a width.
    fn granularity_to_native(granularity: &Granularity) -> Result<String, Self::Error>;

    /// Runs a query.
    fn load_results(&self, query: &NativeQuery<'_>) -> Result<Vec<Self::Row>, Self::Error>;
}

/// A backend that can read its rows as `R`.
pub trait LoadRow<R>: AnalyticsDataSource {
    fn load_row(row: Self::Row) -> Result<R, Self::Error>;
}

/// A backend that SDK-event metrics can be loaded from.
pub trait SdkEventMetricAnalytics: LoadRow<SdkEventMetricRow> {

}

/// `text` is a way in which the backend writes `literal`.
pub open spec fn writes_literal<T: AnalyticsDataSource>(literal: Literal, text: String) -> bool {
    call_ensures(T::literal_to_native, (&literal,), Ok::<String, T::Error>(text))
}

/// The backend may fail to write `literal`.
pub open spec fn refuses_literal<T: AnalyticsDataSource>(literal: Literal) -> bool {
    exists|error: T::Error|
        call_ensures(T::literal_to_native, (&literal,), Err::<String, T::Error>(error))
}

/// `text` is a way in which the backend writes `aggregate`.
pub open spec fn writes_aggregate<T: AnalyticsDataSource>(
    aggregate: Aggregate,
    text: String,
) -> bool {
    call_ensures(T::aggregate_to_native, (&aggregate,), Ok::<String, T::Error>(text))
}

/// The backend may fail to write `aggregate`.
pub open spec fn refuses_aggregate<T: AnalyticsDataSource>(aggregate: Aggregate) -> bool {
    exists|error: T::Error|
        call_ensures(T::aggregate_to_native, (&aggregate,), Err::<String, T::Error>(error))
}

/// `text` is a way in which the backend writes `window`; no window is
/// written as no text.
pub open spec fn writes_window<T: AnalyticsDataSource>(
    window: Option<Window>,
    text: Option<String>,
) -> bool {
    match window {
        Some(w) => text matches Some(t) && call_ensures(
            T::window_to_native,
            (&w,),
            Ok::<String, T::Error>(t),
        ),
        None => text is None,
    }
}

/// The backend may fail to write `window`.
pub open spec fn refuses_window<T: AnalyticsDataSource>(window: Option<Window>) -> bool {
    window matches Some(w) && exists|error: T::Error|
        call_ensures(T::window_to_native, (&w,), Err::<String, T::Error>(error))
}

/// `text` is a way in which the backend cuts time into buckets of the width
/// `granularity`; without a width nothing is written.
pub open spec fn writes_granularity<T: AnalyticsDataSource>(
    granularity: Option<Granularity>,
    text: Option<String>,
) -> bool {
    match granularity {
        Some(g) => text matches Some(t) && call_ensures(
            T::granularity_to_native,
            (&g,),
            Ok::<String, T::Error>(t),
        ),
        None => text is None,
    }
}

/// The backend may fail to write `granularity`.
pub open spec fn refuses_granularity<T: AnalyticsDataSource>(
    granularity: Option<Granularity>,
) -> bool {
    granularity matches Some(g) && exists|error: T::Error|
        call_ensures(T::granularity_to_native, (&g,), Err::<String, T::Error>(error))
}

/// `native` is `plan` in the form of the backend `T`: each expression of
/// the plan as the backend writes it, and the rest as it is in the plan.
pub open spec fn translates<T: AnalyticsDataSource>(plan: QueryPlan, native: NativeQuery) -> bool {
    &&& writes_literal::<T>(Literal::Collection(plan.collection), native.collection)
    &&& writes_aggregate::<T>(plan.aggregate, native.aggregate)
    &&& native.value_column == plan.aggregate.column()
    &&& writes_window::<T>(plan.window, native.window)
    &&& writes_literal::<T>(Literal::Timestamp(plan.time_range.start_time), native.range_start)
    &&& writes_literal::<T>(Literal::Timestamp(plan.time_range.end_time), native.range_end)
    &&& writes_granularity::<T>(plan.granularity, native.time_bucket)
    &&& native.event == plan.event
    &&& native.publishable_key@ == plan.publishable_key
    &&& native.filters@ == plan.filters
    &&& native.group_by@ == plan.group_by
}

/// The backend may fail to write one of the expressions of `plan`.
pub open spec fn untranslatable<T: AnalyticsDataSource>(plan: QueryPlan) -> bool {
    ||| refuses_literal::<T>(Literal::Collection(plan.collection))
    ||| refuses_aggregate::<T>(plan.aggregate)
    ||| refuses_window::<T>(plan.window)
    ||| refuses_literal::<T>(Literal::Timestamp(plan.time_range.start_time))
    ||| refuses_literal::<T>(Literal::Timestamp(plan.time_range.end_time))
    ||| refuses_granularity::<T>(plan.granularity)
}

fn literal_text<T: AnalyticsDataSource>(literal: Literal) -> (result: MetricsResult<String>)
    ensures
        match result {
            Ok(text) => writes_literal::<T>(literal, text),
            Err(error) => error == MetricsError::QueryBuildError && refuses_literal::<T>(literal),
        },
{
    match T::literal_to_native(&literal) {
        Ok(text) => Ok(text),
        Err(_) => Err(MetricsError::QueryBuildError),
    }
}

fn aggregate_text<T: AnalyticsDataSource>(aggregate: Aggregate) -> (result: MetricsResult<String>)
    ensures
        match result {
            Ok(text) => writes_aggregate::<T>(aggregate, text),
            Err(error) => error == MetricsError::QueryBuildError && refuses_aggregate::<T>(
                aggregate,
            ),
        },
{
    match T::aggregate_to_native(&aggregate) {
        Ok(text) => Ok(text),
        Err(_) => Err(MetricsError::QueryBuildError),
    }
}

fn window_text<T: AnalyticsDataSource>(window: Option<Window>) -> (result: MetricsResult<
    Option<String>,
>)
    ensures
        match result {
            Ok(text) => writes_window::<T>(window, text),
            Err(error) => error == MetricsError::QueryBuildError && refuses_window::<T>(window),
        },
{
    match window {
        Some(w) => match T::window_to_native(&w) {
            Ok(text) => Ok(Some(text)),
            Err(_) => Err(MetricsError::QueryBuildError),
        },
        None => Ok(None),
    }
}

fn granularity_text<T: AnalyticsDataSource>(granularity: Option<Granularity>) -> (result:
    MetricsResult<Option<String>>)
    ensures
        match result {
            Ok(text) => writes_granularity::<T>(granularity, text),
            Err(error) => error == MetricsError::QueryBuildError && refuses_granularity::<T>(
                granularity,
            ),
        },
{
    match granularity {
        Some(g) => match T::granularity_to_native(&g) {
            Ok(text) => Ok(Some(text)),
            Err(_) => Err(MetricsError::QueryBuildError),
        },
        None => Ok(None),
    }
}

/// Puts a query into the form of the backend `T`. The backend writes the
/// collection, the aggregate, the window, the two ends of the period and
/// the time bucket, in this order; the first that it fails to write ends
/// the translation with `QueryBuildError`.
pub fn translate_query<'a, T: AnalyticsDataSource>(query: MetricQuery<'a>) -> (result:
    MetricsResult<NativeQuery<'a>>)
    ensures
        match result {
            Ok(native) => {
                &&& translates::<T>(query@, native)
                &&& native.publishable_key == query.publishable_key
                &&& native.filters == query.filters
                &&& native.group_by == query.group_by
            },
            Err(error) => error == MetricsError::QueryBuildError && untranslatable::<T>(query@),
        },
{
    let collection = match literal_text::<T>(Literal::Collection(query.collection)) {
        Ok(text) => text,
        Err(error) => {
            return Err(error);
        },
    };
    let aggregate = match aggregate_text::<T>(query.aggregate) {
        Ok(text) => text,
        Err(error) => {
            return Err(error);
        },
    };
    let window = match window_text::<T>(query.window) {
        Ok(text) => text,
        Err(error) => {
            return Err(error);
        },
    };
    let range_start = match literal_text::<T>(Literal::Timestamp(query.time_range.start_time)) {
        Ok(text) => text,
        Err(error) => {
            return Err(error);
        },
    };
    let range_end = match literal_text::<T>(Literal::Timestamp(query.time_range.end_time)) {
        Ok(text) => text,
        Err(error) => {
            return Err(error);
        },
    };
    let time_bucket = match granularity_text::<T>(query.granularity) {
        Ok(text) => text,
        Err(error) => {
            return Err(error);
        },
    };
    Ok(
        NativeQuery {
            collection,
            aggregate,
            value_column: query.aggregate.fills(),
            window,
            range_start,
            range_end,
            time_bucket,
            event: query.event,
            publishable_key: query.publishable_key,
            filters: query.filters,
            group_by: query.group_by,
        },
    )
}

/// The backend `T` writes each expression in one way only.
pub open spec fn writes_one_way<T: AnalyticsDataSource>() -> bool {
    &&& forall|literal: Literal, first: String, second: String|
        #![trigger writes_literal::<T>(literal, first), writes_literal::<T>(literal, second)]
        writes_literal::<T>(literal, first) && writes_literal::<T>(literal, second) ==> first@
            == second@
    &&& forall|aggregate: Aggregate, first: String, second: String|
        #![trigger writes_aggregate::<T>(aggregate, first), writes_aggregate::<T>(aggregate, second)]
        writes_aggregate::<T>(aggregate, first) && writes_aggregate::<T>(aggregate, second)
            ==> first@ == second@
    &&& forall|window: Option<Window>, first: Option<String>, second: Option<String>|
        #![trigger writes_window::<T>(window, first), writes_window::<T>(window, second)]
        writes_window::<T>(window, first) && writes_window::<T>(window, second) ==> text(first)
            == text(second)
    &&& forall|granularity: Option<Granularity>, first: Option<String>, second: Option<String>|
        #![trigger writes_granularity::<T>(granularity, first), writes_granularity::<T>(granularity, second)]
        writes_granularity::<T>(granularity, first) && writes_granularity::<T>(granularity, second)
            ==> text(first) == text(second)
}

/// Against a backend that writes each expression in one way only, a plan
/// has one form: two translations of it hold the same, part by part and in
/// the same order.
pub proof fn lemma_native_query_deterministic<T: AnalyticsDataSource>(
    plan: QueryPlan,
    first: NativeQuery,
    second: NativeQuery,
)
    requires
        writes_one_way::<T>(),
        translates::<T>(plan, first),
        translates::<T>(plan, second),
    ensures
        first@ == second@,
{
}

/// The form of a plan cuts the period into time buckets exactly when the
/// plan has a granularity, and holds a window exactly when the plan has
/// one.
pub proof fn lemma_native_time_bucket<T: AnalyticsDataSource>(plan: QueryPlan, native: NativeQuery)
    requires
        translates::<T>(plan, native),
    ensures
        native@.time_bucket is Some <==> plan.granularity is Some,
        native@.window is Some <==> plan.window is Some,
{
}

/// `loaded` is a way in which the backend reads `row`.
pub open spec fn reads<T: SdkEventMetricAnalytics>(row: T::Row, loaded: SdkEventMetricRow) -> bool {
    call_ensures(T::load_row, (row,), Ok::<SdkEventMetricRow, T::Error>(loaded))
}

/// The backend may fail to read `row`.
pub open spec fn unreadable<T: SdkEventMetricAnalytics>(row: T::Row) -> bool {
    exists|error: T::Error|
        call_ensures(T::load_row, (row,), Err::<SdkEventMetricRow, T::Error>(error))
}

/// Reads every row, in order. One row that the backend cannot read fails
/// the whole with `RowParseError`: nothing is kept of the others.
pub fn load_rows<T: SdkEventMetricAnalytics>(rows: Vec<T::Row>) -> (result: MetricsResult<
    Vec<SdkEventMetricRow>,
>)
    ensures
        match result {
            Ok(loaded) => loaded@.len() == rows@.len() && forall|i: int|
                0 <= i < rows@.len() ==> reads::<T>(rows@[i], #[trigger] loaded@[i]),
            Err(error) => error == MetricsError::RowParseError && exists|i: int|
                0 <= i < rows@.len() && unreadable::<T>(#[trigger] rows@[i]),
        },
{
    let mut loaded: Vec<SdkEventMetricRow> = Vec::new();
    let ghost all = rows@;
    for row in iter: rows
        invariant
            iter.seq() == all,
            loaded@.len() == iter.index(),
            forall|i: int| 0 <= i < loaded@.len() ==> reads::<T>(all[i], #[trigger] loaded@[i]),
    {
        match T::load_row(row) {
            Ok(read) => {
                loaded.push(read);
            },
            Err(_) => {
                assert(unreadable::<T>(all[iter.index() as int]));
                return Err(MetricsError::RowParseError);
            },
        }
    }
    Ok(loaded)
}

} // verus!
