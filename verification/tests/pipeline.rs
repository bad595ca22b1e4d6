use std::cell::RefCell;
use std::str::FromStr;

use bigdecimal::BigDecimal;
use sdk_event_metrics::backend::{
    load_rows, translate_query, AnalyticsDataSource, LoadRow, NativeQuery, SdkEventMetricAnalytics,
};
use sdk_event_metrics::bucket::{SdkEventMetricRow, SdkEventMetricsBucketIdentifier};
use sdk_event_metrics::domain::{
    DimensionSet, Granularity, MetricsError, SdkEventDimensions, SdkEventFilters, SdkEventMetrics,
    TimeRange,
};
use sdk_event_metrics::metrics::SdkEventMetric;
use sdk_event_metrics::query::{
    Aggregate, AnalyticsCollection, EventField, Literal, Order, SdkEventKind, ValueColumn, Window,
};
use sdk_event_metrics::strategy::{DimensionPolicy, MetricStrategy};

const SECOND: i128 = 1_000_000_000;
const HOUR: i128 = 3_600 * SECOND;
const DAY: i128 = 24 * HOUR;
/// 2024-01-01 00:00:00 UTC.
const NEW_YEAR: i128 = 1_704_067_200 * SECOND;

const ALL_METRICS: [SdkEventMetrics; 14] = [
    SdkEventMetrics::PaymentAttempts,
    SdkEventMetrics::PaymentMethodsCallCount,
    SdkEventMetrics::SdkRenderedCount,
    SdkEventMetrics::SdkInitiatedCount,
    SdkEventMetrics::PaymentMethodSelectedCount,
    SdkEventMetrics::PaymentDataFilledCount,
    SdkEventMetrics::AveragePaymentTime,
    SdkEventMetrics::ThreeDsMethodSkippedCount,
    SdkEventMetrics::ThreeDsMethodInvokedCount,
    SdkEventMetrics::ThreeDsMethodSuccessfulCount,
    SdkEventMetrics::ThreeDsMethodUnsuccessfulCount,
    SdkEventMetrics::AuthenticationUnsuccessfulCount,
    SdkEventMetrics::ThreeDsChallengeFlowCount,
    SdkEventMetrics::ThreeDsFrictionlessFlowCount,
];

const ALL_DIMENSIONS: [SdkEventDimensions; 6] = [
    SdkEventDimensions::PaymentMethod,
    SdkEventDimensions::Platform,
    SdkEventDimensions::BrowserName,
    SdkEventDimensions::Source,
    SdkEventDimensions::Component,
    SdkEventDimensions::PaymentExperience,
];

/// An event in the store.
#[derive(Clone, Debug, PartialEq)]
struct Event {
    kind: SdkEventKind,
    tenant: &'static str,
    at: i128,
    latency: i64,
    payment_method: Option<&'static str>,
    platform: Option<&'static str>,
    browser_name: Option<&'static str>,
}

impl Event {
    fn new(kind: SdkEventKind, at: i128) -> Event {
        Event {
            kind,
            tenant: "pk_live_1",
            at,
            latency: 0,
            payment_method: None,
            platform: None,
            browser_name: None,
        }
    }

    fn tenant(mut self, tenant: &'static str) -> Event {
        self.tenant = tenant;
        self
    }

    fn latency(mut self, latency: i64) -> Event {
        self.latency = latency;
        self
    }

    fn payment_method(mut self, value: &'static str) -> Event {
        self.payment_method = Some(value);
        self
    }

    fn platform(mut self, value: &'static str) -> Event {
        self.platform = Some(value);
        self
    }

    fn browser_name(mut self, value: &'static str) -> Event {
        self.browser_name = Some(value);
        self
    }

    fn value(&self, dimension: SdkEventDimensions) -> Option<&'static str> {
        match dimension {
            SdkEventDimensions::PaymentMethod => self.payment_method,
            SdkEventDimensions::Platform => self.platform,
            SdkEventDimensions::BrowserName => self.browser_name,
            _ => None,
        }
    }
}

/// A row as the store returns it: every cell is text.
#[derive(Clone, Debug, PartialEq)]
struct StoredRow {
    total: Option<String>,
    count: Option<String>,
    time_bucket: Option<String>,
    values: Vec<(SdkEventDimensions, Option<String>)>,
}

/// What the store was handed, kept for the test to look at.
#[derive(Clone, Debug, PartialEq)]
struct Handed {
    collection: String,
    aggregate: String,
    value_column: ValueColumn,
    window: Option<String>,
    range_start: String,
    range_end: String,
    time_bucket: Option<String>,
    event: SdkEventKind,
    publishable_key: String,
    filters: SdkEventFilters,
    group_by: Vec<SdkEventDimensions>,
}

/// A store that holds its events in memory and answers a query by walking
/// them.
struct Store {
    events: Vec<Event>,
    down: bool,
    garbled: bool,
    handed: RefCell<Vec<Handed>>,
}

impl Store {
    fn with(events: Vec<Event>) -> Store {
        Store { events, down: false, garbled: false, handed: RefCell::new(Vec::new()) }
    }
}

fn stamp(at: i128, whole_days: bool) -> String {
    let moment = time::OffsetDateTime::from_unix_timestamp_nanos(at).unwrap();
    let day = format!("{:04}-{:02}-{:02}", moment.year(), u8::from(moment.month()), moment.day());
    if whole_days {
        day
    } else {
        format!("{} {:02}:{:02}:{:02}", day, moment.hour(), moment.minute(), moment.second())
    }
}

impl AnalyticsDataSource for Store {
    type Row = StoredRow;

    type Error = String;

    fn literal_to_native(literal: &Literal) -> Result<String, String> {
        match literal {
            Literal::Timestamp(at) => Ok(format!("{}", at)),
            Literal::Collection(AnalyticsCollection::SdkEvents) => Ok("sdk_events".to_string()),
        }
    }

    fn aggregate_to_native(aggregate: &Aggregate) -> Result<String, String> {
        match aggregate {
            Aggregate::Count => Ok("count(*)".to_string()),
            Aggregate::Average { field: EventField::Latency } => Ok("avg(latency)".to_string()),
            other => Err(format!("cannot compute {:?}", other)),
        }
    }

    fn window_to_native(window: &Window) -> Result<String, String> {
        match window {
            Window::RowNumber { order: Order::Ascending } => Ok("row_number() asc".to_string()),
            Window::RowNumber { order: Order::Descending } => Ok("row_number() desc".to_string()),
            other => Err(format!("cannot compute {:?}", other)),
        }
    }

    fn granularity_to_native(granularity: &Granularity) -> Result<String, String> {
        Ok(format!("{}", granularity.seconds()))
    }

    fn load_results(&self, query: &NativeQuery<'_>) -> Result<Vec<StoredRow>, String> {
        self.handed.borrow_mut().push(Handed {
            collection: query.collection.clone(),
            aggregate: query.aggregate.clone(),
            value_column: query.value_column,
            window: query.window.clone(),
            range_start: query.range_start.clone(),
            range_end: query.range_end.clone(),
            time_bucket: query.time_bucket.clone(),
            event: query.event,
            publishable_key: query.publishable_key.to_string(),
            filters: query.filters.clone(),
            group_by: query.group_by.clone(),
        });
        if self.down {
            return Err("the store is down".to_string());
        }
        let start: i128 = query.range_start.parse().unwrap();
        let end: i128 = query.range_end.parse().unwrap();
        let width: Option<i128> = query.time_bucket.as_ref().map(|w| w.parse::<i128>().unwrap() * SECOND);
        let mut groups: Vec<(Option<String>, Vec<Option<String>>, i64, i64)> = Vec::new();
        for event in self.events.iter() {
            let passes = ALL_DIMENSIONS.iter().all(|dimension| {
                let kept = query.filters.values(*dimension);
                kept.is_empty()
                    || event.value(*dimension).map_or(false, |v| kept.iter().any(|k| k == v))
            });
            if event.kind != query.event
                || event.tenant != query.publishable_key
                || !passes
                || event.at < start
                || event.at >= end
            {
                continue;
            }
            let time_bucket = width.map(|w| stamp(event.at.div_euclid(w) * w, w == DAY));
            let values: Vec<Option<String>> =
                query.group_by.iter().map(|d| event.value(*d).map(|v| v.to_string())).collect();
            match groups.iter_mut().find(|g| g.0 == time_bucket && g.1 == values) {
                Some(group) => {
                    group.2 += 1;
                    group.3 += event.latency;
                }
                None => groups.push((time_bucket, values, 1, event.latency)),
            }
        }
        let mut rows = Vec::new();
        for (time_bucket, values, count, latency) in groups {
            let averaged = query.value_column == ValueColumn::Total;
            rows.push(StoredRow {
                total: if averaged {
                    Some((BigDecimal::from(latency) / BigDecimal::from(count)).to_string())
                } else {
                    None
                },
                count: if averaged {
                    None
                } else if self.garbled && rows.len() == 1 {
                    Some("many".to_string())
                } else {
                    Some(format!("{}", count))
                },
                time_bucket,
                values: query.group_by.iter().copied().zip(values).collect(),
            });
        }
        Ok(rows)
    }
}

impl LoadRow<SdkEventMetricRow> for Store {
    fn load_row(row: StoredRow) -> Result<SdkEventMetricRow, String> {
        let total = match row.total {
            Some(text) => Some(BigDecimal::from_str(&text).map_err(|e| e.to_string())?),
            None => None,
        };
        let count = match row.count {
            Some(text) => Some(text.parse::<i64>().map_err(|e| e.to_string())?),
            None => None,
        };
        let mut read = SdkEventMetricRow {
            total,
            count,
            time_bucket: row.time_bucket,
            payment_method: None,
            platform: None,
            browser_name: None,
            source: None,
            component: None,
            payment_experience: None,
        };
        for (dimension, value) in row.values {
            match dimension {
                SdkEventDimensions::PaymentMethod => read.payment_method = value,
                SdkEventDimensions::Platform => read.platform = value,
                SdkEventDimensions::BrowserName => read.browser_name = value,
                SdkEventDimensions::Source => read.source = value,
                SdkEventDimensions::Component => read.component = value,
                SdkEventDimensions::PaymentExperience => read.payment_experience = value,
            }
        }
        Ok(read)
    }
}

impl SdkEventMetricAnalytics for Store {}

type Loaded = Vec<(SdkEventMetricsBucketIdentifier, SdkEventMetricRow)>;

fn identifier(
    time_bucket: Option<&str>,
    values: &[(SdkEventDimensions, &str)],
) -> SdkEventMetricsBucketIdentifier {
    let value = |dimension: SdkEventDimensions| {
        values.iter().find(|(d, _)| *d == dimension).map(|(_, v)| v.to_string())
    };
    SdkEventMetricsBucketIdentifier::new(
        value(SdkEventDimensions::PaymentMethod),
        value(SdkEventDimensions::Platform),
        value(SdkEventDimensions::BrowserName),
        value(SdkEventDimensions::Source),
        value(SdkEventDimensions::Component),
        value(SdkEventDimensions::PaymentExperience),
        time_bucket.map(|t| t.to_string()),
    )
}

/// The one row of `loaded` that stands beside `wanted`.
fn row_of<'a>(
    loaded: &'a Loaded,
    wanted: &SdkEventMetricsBucketIdentifier,
) -> &'a SdkEventMetricRow {
    let found: Vec<&SdkEventMetricRow> =
        loaded.iter().filter(|(id, _)| id == wanted).map(|(_, row)| row).collect();
    assert_eq!(found.len(), 1, "one row for {:?}", wanted);
    found[0]
}

fn first_day() -> TimeRange {
    TimeRange::new(NEW_YEAR, NEW_YEAR + DAY).unwrap()
}

/// Payment events of the first days of 2024, beside events of another
/// kind, of another tenant and of other days.
fn payments() -> Vec<Event> {
    vec![
        Event::new(SdkEventKind::PaymentAttempt, NEW_YEAR + HOUR).platform("web").latency(100),
        Event::new(SdkEventKind::PaymentAttempt, NEW_YEAR + 5 * HOUR).platform("web").latency(300),
        Event::new(SdkEventKind::PaymentAttempt, NEW_YEAR + DAY - 1).platform("ios").latency(800),
        Event::new(SdkEventKind::PaymentAttempt, NEW_YEAR + DAY).platform("android").latency(50),
        Event::new(SdkEventKind::PaymentAttempt, NEW_YEAR - 1).platform("android").latency(50),
        Event::new(SdkEventKind::SdkRendered, NEW_YEAR + 2 * HOUR).platform("web"),
        Event::new(SdkEventKind::PaymentAttempt, NEW_YEAR + 3 * HOUR)
            .platform("web")
            .tenant("pk_live_2"),
    ]
}

#[test]
fn payment_attempts_by_platform_for_one_day() {
    let store = Store::with(payments());
    let loaded = SdkEventMetrics::PaymentAttempts
        .load_metrics(
            &[SdkEventDimensions::Platform],
            "pk_live_1",
            &SdkEventFilters::none(),
            &Some(Granularity::OneDay),
            &first_day(),
            &store,
        )
        .unwrap();
    assert_eq!(loaded.len(), 2);
    let web = row_of(
        &loaded,
        &identifier(Some("2024-01-01"), &[(SdkEventDimensions::Platform, "web")]),
    );
    assert_eq!(web.count, Some(2));
    assert_eq!(web.total, None);
    assert_eq!(web.time_bucket.as_deref(), Some("2024-01-01"));
    assert_eq!(web.platform.as_deref(), Some("web"));
    let ios = row_of(
        &loaded,
        &identifier(Some("2024-01-01"), &[(SdkEventDimensions::Platform, "ios")]),
    );
    assert_eq!(ios.count, Some(1));
    assert_eq!(ios.total, None);
    assert_eq!(ios.time_bucket.as_deref(), Some("2024-01-01"));
    assert_eq!(ios.platform.as_deref(), Some("ios"));
    for (_, row) in loaded.iter() {
        assert_eq!(row.payment_method, None);
        assert_eq!(row.browser_name, None);
        assert_eq!(row.source, None);
        assert_eq!(row.component, None);
        assert_eq!(row.payment_experience, None);
    }
}

#[test]
fn average_payment_time_over_the_whole_period() {
    let store = Store::with(payments());
    let loaded = SdkEventMetrics::AveragePaymentTime
        .load_metrics(&[], "pk_live_1", &SdkEventFilters::none(), &None, &first_day(), &store)
        .unwrap();
    assert_eq!(loaded.len(), 1);
    let (bucket, row) = &loaded[0];
    assert_eq!(*bucket, identifier(None, &[]));
    assert_eq!(row.total, Some(BigDecimal::from(400)));
    assert_eq!(row.count, None);
    assert_eq!(row.time_bucket, None);
    assert_eq!(row.payment_method, None);
    assert_eq!(row.platform, None);
    assert_eq!(row.browser_name, None);
    assert_eq!(row.source, None);
    assert_eq!(row.component, None);
    assert_eq!(row.payment_experience, None);
}

#[test]
fn failed_execution_returns_no_rows() {
    let mut store = Store::with(payments());
    store.down = true;
    let result = SdkEventMetrics::PaymentAttempts.load_metrics(
        &[SdkEventDimensions::Platform],
        "pk_live_1",
        &SdkEventFilters::none(),
        &Some(Granularity::OneDay),
        &first_day(),
        &store,
    );
    assert_eq!(result, Err(MetricsError::QueryExecutionError));
    assert_eq!(store.handed.borrow().len(), 1);
    assert_eq!(store.events, payments());
}

#[test]
fn every_metric_runs_its_registered_strategy() {
    let kinds = [
        SdkEventKind::PaymentAttempt,
        SdkEventKind::PaymentMethodsCall,
        SdkEventKind::SdkRendered,
        SdkEventKind::SdkInitiated,
        SdkEventKind::PaymentMethodSelected,
        SdkEventKind::PaymentDataFilled,
        SdkEventKind::PaymentAttempt,
        SdkEventKind::ThreeDsMethodSkipped,
        SdkEventKind::ThreeDsMethodInvoked,
        SdkEventKind::ThreeDsMethodSuccessful,
        SdkEventKind::ThreeDsMethodUnsuccessful,
        SdkEventKind::AuthenticationUnsuccessful,
        SdkEventKind::ThreeDsChallengeFlow,
        SdkEventKind::ThreeDsFrictionlessFlow,
    ];
    let mut events = Vec::new();
    for (n, kind) in kinds.iter().enumerate() {
        for k in 0..=n {
            events.push(
                Event::new(*kind, NEW_YEAR + (k as i128) * HOUR).platform("web").latency(10),
            );
        }
    }
    for (metric, kind) in ALL_METRICS.iter().zip(kinds.iter()) {
        let store = Store::with(events.clone());
        let by_metric = metric.load_metrics(
            &[SdkEventDimensions::Platform],
            "pk_live_1",
            &SdkEventFilters::none(),
            &None,
            &first_day(),
            &store,
        );
        let by_strategy = metric.strategy().load_metrics(
            &[SdkEventDimensions::Platform],
            "pk_live_1",
            &SdkEventFilters::none(),
            &None,
            &first_day(),
            &store,
        );
        assert!(by_metric.is_ok());
        assert_eq!(by_metric, by_strategy);
        let handed = store.handed.borrow();
        assert_eq!(handed.len(), 2);
        assert_eq!(handed[0], handed[1]);
        assert_eq!(handed[0].event, *kind);
        assert_eq!(handed[0].aggregate, if *metric == SdkEventMetrics::AveragePaymentTime {
            "avg(latency)"
        } else {
            "count(*)"
        });
        assert_eq!(handed[0].value_column, metric.strategy().aggregate.fills());
        assert_eq!(handed[0].publishable_key, "pk_live_1");
        assert_eq!(handed[0].group_by, vec![SdkEventDimensions::Platform]);
        assert_eq!(handed[0].filters, SdkEventFilters::none());
        assert_eq!(handed[0].time_bucket, None);
        assert_eq!(handed[0].range_start, format!("{}", NEW_YEAR));
        assert_eq!(handed[0].range_end, format!("{}", NEW_YEAR + DAY));
    }
}

#[test]
fn metrics_do_not_see_each_others_events() {
    let events = vec![
        Event::new(SdkEventKind::SdkRendered, NEW_YEAR + HOUR),
        Event::new(SdkEventKind::SdkRendered, NEW_YEAR + 2 * HOUR),
        Event::new(SdkEventKind::SdkRendered, NEW_YEAR + 3 * HOUR),
        Event::new(SdkEventKind::SdkInitiated, NEW_YEAR + HOUR),
        Event::new(SdkEventKind::ThreeDsMethodInvoked, NEW_YEAR + HOUR),
        Event::new(SdkEventKind::ThreeDsMethodInvoked, NEW_YEAR + 2 * HOUR),
    ];
    let expected = [
        (SdkEventMetrics::SdkRenderedCount, Some(3)),
        (SdkEventMetrics::SdkInitiatedCount, Some(1)),
        (SdkEventMetrics::ThreeDsMethodInvokedCount, Some(2)),
        (SdkEventMetrics::ThreeDsMethodSkippedCount, None),
        (SdkEventMetrics::PaymentAttempts, None),
    ];
    for (metric, count) in expected.iter() {
        let store = Store::with(events.clone());
        let loaded = metric
            .load_metrics(&[], "pk_live_1", &SdkEventFilters::none(), &None, &first_day(), &store)
            .unwrap();
        match count {
            Some(n) => {
                assert_eq!(loaded.len(), 1);
                assert_eq!(loaded[0].1.count, Some(*n));
            }
            None => assert_eq!(loaded.len(), 0),
        }
    }
}

#[test]
fn no_granularity_gives_one_bucket_per_combination() {
    let events = vec![
        Event::new(SdkEventKind::PaymentAttempt, NEW_YEAR).platform("web").payment_method("card"),
        Event::new(SdkEventKind::PaymentAttempt, NEW_YEAR + DAY)
            .platform("web")
            .payment_method("card"),
        Event::new(SdkEventKind::PaymentAttempt, NEW_YEAR + 2 * DAY)
            .platform("web")
            .payment_method("wallet"),
        Event::new(SdkEventKind::PaymentAttempt, NEW_YEAR + 3 * DAY)
            .platform("ios")
            .payment_method("card"),
        Event::new(SdkEventKind::PaymentAttempt, NEW_YEAR + 4 * DAY).platform("ios"),
    ];
    let store = Store::with(events);
    let week = TimeRange::new(NEW_YEAR, NEW_YEAR + 7 * DAY).unwrap();
    let dimensions = [SdkEventDimensions::Platform, SdkEventDimensions::PaymentMethod];
    let loaded = SdkEventMetrics::PaymentAttempts
        .load_metrics(&dimensions, "pk_live_1", &SdkEventFilters::none(), &None, &week, &store)
        .unwrap();
    assert_eq!(store.handed.borrow()[0].time_bucket, None);
    assert_eq!(loaded.len(), 4);
    for (bucket, row) in loaded.iter() {
        assert_eq!(bucket.time_bucket, None);
        assert_eq!(row.time_bucket, None);
    }
    let web = (SdkEventDimensions::Platform, "web");
    let ios = (SdkEventDimensions::Platform, "ios");
    let card = (SdkEventDimensions::PaymentMethod, "card");
    let wallet = (SdkEventDimensions::PaymentMethod, "wallet");
    assert_eq!(row_of(&loaded, &identifier(None, &[web, card])).count, Some(2));
    assert_eq!(row_of(&loaded, &identifier(None, &[web, wallet])).count, Some(1));
    assert_eq!(row_of(&loaded, &identifier(None, &[ios, card])).count, Some(1));
    assert_eq!(row_of(&loaded, &identifier(None, &[ios])).count, Some(1));
}

#[test]
fn granularity_cuts_the_period_into_buckets() {
    let store = Store::with(payments());
    let loaded = SdkEventMetrics::PaymentAttempts
        .load_metrics(
            &[],
            "pk_live_1",
            &SdkEventFilters::none(),
            &Some(Granularity::OneHour),
            &first_day(),
            &store,
        )
        .unwrap();
    assert_eq!(store.handed.borrow()[0].time_bucket.as_deref(), Some("3600"));
    assert_eq!(loaded.len(), 3);
    assert_eq!(row_of(&loaded, &identifier(Some("2024-01-01 01:00:00"), &[])).count, Some(1));
    assert_eq!(row_of(&loaded, &identifier(Some("2024-01-01 05:00:00"), &[])).count, Some(1));
    assert_eq!(row_of(&loaded, &identifier(Some("2024-01-01 23:00:00"), &[])).count, Some(1));
}

#[test]
fn every_pair_holds_the_identifier_of_its_own_row() {
    let store = Store::with(payments());
    let loaded = SdkEventMetrics::PaymentAttempts
        .load_metrics(
            &[SdkEventDimensions::Platform, SdkEventDimensions::BrowserName],
            "pk_live_1",
            &SdkEventFilters::none(),
            &Some(Granularity::OneHour),
            &TimeRange::new(NEW_YEAR - DAY, NEW_YEAR + 2 * DAY).unwrap(),
            &store,
        )
        .unwrap();
    assert_eq!(loaded.len(), 5);
    for (bucket, row) in loaded.iter() {
        assert_eq!(*bucket, SdkEventMetricsBucketIdentifier::of_row(row));
        assert_eq!(bucket.time_bucket, row.time_bucket);
        assert_eq!(bucket.platform, row.platform);
        assert_eq!(bucket.browser_name, None);
    }
    for (n, (bucket, _)) in loaded.iter().enumerate() {
        for (m, (other, _)) in loaded.iter().enumerate() {
            assert_eq!(bucket.same_bucket(other), n == m);
        }
    }
}

#[test]
fn rows_come_in_the_order_of_the_backend() {
    let store = Store::with(payments());
    let loaded = SdkEventMetrics::PaymentAttempts
        .load_metrics(
            &[SdkEventDimensions::Platform],
            "pk_live_1",
            &SdkEventFilters::none(),
            &None,
            &TimeRange::new(NEW_YEAR - DAY, NEW_YEAR + 2 * DAY).unwrap(),
            &store,
        )
        .unwrap();
    let platforms: Vec<Option<&str>> =
        loaded.iter().map(|(_, row)| row.platform.as_deref()).collect();
    assert_eq!(platforms, vec![Some("web"), Some("ios"), Some("android")]);
    let counts: Vec<Option<i64>> = loaded.iter().map(|(_, row)| row.count).collect();
    assert_eq!(counts, vec![Some(2), Some(1), Some(2)]);
}

#[test]
fn same_request_gives_the_same_native_query() {
    let store = Store::with(payments());
    let mut filters = SdkEventFilters::none();
    filters.platform = vec!["web".to_string(), "ios".to_string()];
    let dimensions = [
        SdkEventDimensions::BrowserName,
        SdkEventDimensions::Platform,
        SdkEventDimensions::PaymentMethod,
    ];
    for _ in 0..2 {
        let loaded = SdkEventMetrics::AveragePaymentTime.load_metrics(
            &dimensions,
            "pk_live_1",
            &filters,
            &Some(Granularity::FifteenMin),
            &first_day(),
            &store,
        );
        assert!(loaded.is_ok());
    }
    let handed = store.handed.borrow();
    assert_eq!(handed.len(), 2);
    assert_eq!(handed[0], handed[1]);
    assert_eq!(
        handed[0],
        Handed {
            collection: "sdk_events".to_string(),
            aggregate: "avg(latency)".to_string(),
            value_column: ValueColumn::Total,
            window: None,
            range_start: "1704067200000000000".to_string(),
            range_end: "1704153600000000000".to_string(),
            time_bucket: Some("900".to_string()),
            event: SdkEventKind::PaymentAttempt,
            publishable_key: "pk_live_1".to_string(),
            filters: filters.clone(),
            group_by: dimensions.to_vec(),
        }
    );
}

#[test]
fn unreadable_row_fails_the_whole_load() {
    let mut store = Store::with(payments());
    store.garbled = true;
    let result = SdkEventMetrics::PaymentAttempts.load_metrics(
        &[SdkEventDimensions::Platform],
        "pk_live_1",
        &SdkEventFilters::none(),
        &None,
        &first_day(),
        &store,
    );
    assert_eq!(result, Err(MetricsError::RowParseError));
}

#[test]
fn load_rows_reads_every_row_or_none() {
    let row = |count: &str| StoredRow {
        total: None,
        count: Some(count.to_string()),
        time_bucket: None,
        values: vec![(SdkEventDimensions::Source, Some("sdk".to_string()))],
    };
    let read = load_rows::<Store>(vec![row("1"), row("2"), row("3")]).unwrap();
    let counts: Vec<Option<i64>> = read.iter().map(|r| r.count).collect();
    assert_eq!(counts, vec![Some(1), Some(2), Some(3)]);
    assert_eq!(read[0].source.as_deref(), Some("sdk"));
    assert_eq!(load_rows::<Store>(Vec::new()), Ok(Vec::new()));
    assert_eq!(
        load_rows::<Store>(vec![row("1"), row("two"), row("3")]),
        Err(MetricsError::RowParseError)
    );
    assert_eq!(load_rows::<Store>(vec![row("1"), row("2"), row("")]), Err(MetricsError::RowParseError));
}

fn sum_of_latency() -> MetricStrategy {
    MetricStrategy {
        aggregate: Aggregate::Count,
        window: Some(Window::Sum { field: EventField::Latency, order: Order::Ascending }),
        event: SdkEventKind::PaymentAttempt,
        supported: DimensionSet::all(),
        unsupported: DimensionPolicy::Drop,
    }
}

#[test]
fn untranslatable_expression_is_a_build_error() {
    let store = Store::with(payments());
    let windowed = sum_of_latency().load_metrics(
        &[],
        "pk_live_1",
        &SdkEventFilters::none(),
        &None,
        &first_day(),
        &store,
    );
    assert_eq!(windowed, Err(MetricsError::QueryBuildError));
    let distinct = MetricStrategy {
        aggregate: Aggregate::DistinctCount { field: EventField::SessionId },
        window: None,
        ..sum_of_latency()
    }
    .load_metrics(&[], "pk_live_1", &SdkEventFilters::none(), &None, &first_day(), &store);
    assert_eq!(distinct, Err(MetricsError::QueryBuildError));
    assert_eq!(store.handed.borrow().len(), 0);
}

#[test]
fn translate_query_writes_every_expression() {
    let filters = SdkEventFilters::none();
    let strategy = SdkEventMetrics::AveragePaymentTime.strategy();
    let query = strategy
        .build_query(
            &[SdkEventDimensions::Component],
            "pk_live_1",
            &filters,
            &Some(Granularity::ThirtyMin),
            &first_day(),
        )
        .unwrap();
    let native = translate_query::<Store>(query).unwrap();
    assert_eq!(native.collection, "sdk_events");
    assert_eq!(native.aggregate, "avg(latency)");
    assert_eq!(native.value_column, ValueColumn::Total);
    assert_eq!(native.window, None);
    assert_eq!(native.range_start, "1704067200000000000");
    assert_eq!(native.range_end, "1704153600000000000");
    assert_eq!(native.time_bucket.as_deref(), Some("1800"));
    assert_eq!(native.event, SdkEventKind::PaymentAttempt);
    assert_eq!(native.publishable_key, "pk_live_1");
    assert_eq!(*native.filters, filters);
    assert_eq!(native.group_by, vec![SdkEventDimensions::Component]);

    let windowed = sum_of_latency()
        .build_query(&[], "pk_live_1", &filters, &None, &first_day())
        .unwrap();
    assert_eq!(translate_query::<Store>(windowed).err(), Some(MetricsError::QueryBuildError));

    let numbered = MetricStrategy {
        window: Some(Window::RowNumber { order: Order::Descending }),
        ..sum_of_latency()
    }
    .build_query(&[], "pk_live_1", &filters, &None, &first_day())
    .unwrap();
    let native = translate_query::<Store>(numbered).unwrap();
    assert_eq!(native.aggregate, "count(*)");
    assert_eq!(native.value_column, ValueColumn::Count);
    assert_eq!(native.window.as_deref(), Some("row_number() desc"));
    assert_eq!(native.time_bucket, None);
    assert_eq!(native.group_by, Vec::<SdkEventDimensions>::new());
}

fn only_platform(unsupported: DimensionPolicy) -> MetricStrategy {
    let mut supported = DimensionSet::empty();
    supported.insert(SdkEventDimensions::Platform);
    MetricStrategy {
        aggregate: Aggregate::Count,
        window: None,
        event: SdkEventKind::PaymentAttempt,
        supported,
        unsupported,
    }
}

#[test]
fn rejecting_strategy_refuses_an_unsupported_dimension() {
    let store = Store::with(payments());
    let strategy = only_platform(DimensionPolicy::Reject);
    let refused = strategy.load_metrics(
        &[SdkEventDimensions::Platform, SdkEventDimensions::BrowserName],
        "pk_live_1",
        &SdkEventFilters::none(),
        &None,
        &first_day(),
        &store,
    );
    assert_eq!(refused, Err(MetricsError::QueryBuildError));
    assert_eq!(store.handed.borrow().len(), 0);
    let taken = strategy
        .load_metrics(
            &[SdkEventDimensions::Platform],
            "pk_live_1",
            &SdkEventFilters::none(),
            &None,
            &first_day(),
            &store,
        )
        .unwrap();
    assert_eq!(taken.len(), 2);
    assert_eq!(store.handed.borrow()[0].group_by, vec![SdkEventDimensions::Platform]);
}

#[test]
fn dropping_strategy_leaves_an_unsupported_dimension_out() {
    let events = vec![
        Event::new(SdkEventKind::PaymentAttempt, NEW_YEAR).platform("web").browser_name("firefox"),
        Event::new(SdkEventKind::PaymentAttempt, NEW_YEAR + 1).platform("web").browser_name("safari"),
    ];
    let store = Store::with(events);
    let loaded = only_platform(DimensionPolicy::Drop)
        .load_metrics(
            &[SdkEventDimensions::BrowserName, SdkEventDimensions::Platform],
            "pk_live_1",
            &SdkEventFilters::none(),
            &None,
            &first_day(),
            &store,
        )
        .unwrap();
    assert_eq!(store.handed.borrow()[0].group_by, vec![SdkEventDimensions::Platform]);
    assert_eq!(loaded.len(), 1);
    assert_eq!(loaded[0].0, identifier(None, &[(SdkEventDimensions::Platform, "web")]));
    assert_eq!(loaded[0].1.count, Some(2));
    assert_eq!(loaded[0].1.browser_name, None);
}

#[test]
fn filters_narrow_the_events() {
    let store = Store::with(payments());
    let mut filters = SdkEventFilters::none();
    filters.platform = vec!["ios".to_string(), "android".to_string()];
    let loaded = SdkEventMetrics::PaymentAttempts
        .load_metrics(&[], "pk_live_1", &filters, &None, &first_day(), &store)
        .unwrap();
    assert_eq!(loaded.len(), 1);
    assert_eq!(loaded[0].1.count, Some(1));
    filters.payment_method = vec!["card".to_string()];
    let none = SdkEventMetrics::PaymentAttempts
        .load_metrics(&[], "pk_live_1", &filters, &None, &first_day(), &store)
        .unwrap();
    assert_eq!(none.len(), 0);
}

#[test]
fn publishable_key_scopes_the_tenant() {
    let store = Store::with(payments());
    let loaded = SdkEventMetrics::PaymentAttempts
        .load_metrics(
            &[SdkEventDimensions::Platform],
            "pk_live_2",
            &SdkEventFilters::none(),
            &None,
            &first_day(),
            &store,
        )
        .unwrap();
    assert_eq!(loaded.len(), 1);
    assert_eq!(loaded[0].1.count, Some(1));
    assert_eq!(loaded[0].1.platform.as_deref(), Some("web"));
    assert_eq!(store.handed.borrow()[0].publishable_key, "pk_live_2");
}

#[test]
fn request_order_only_reorders_the_columns() {
    let events = vec![
        Event::new(SdkEventKind::PaymentAttempt, NEW_YEAR).platform("web").payment_method("card"),
        Event::new(SdkEventKind::PaymentAttempt, NEW_YEAR + 1).platform("ios").payment_method("card"),
        Event::new(SdkEventKind::PaymentAttempt, NEW_YEAR + 2).platform("web").payment_method("card"),
    ];
    let store = Store::with(events);
    let load = |dimensions: &[SdkEventDimensions]| {
        SdkEventMetrics::PaymentAttempts
            .load_metrics(
                dimensions,
                "pk_live_1",
                &SdkEventFilters::none(),
                &None,
                &first_day(),
                &store,
            )
            .unwrap()
    };
    let one_way = load(&[SdkEventDimensions::Platform, SdkEventDimensions::PaymentMethod]);
    let other_way = load(&[
        SdkEventDimensions::PaymentMethod,
        SdkEventDimensions::Platform,
        SdkEventDimensions::PaymentMethod,
    ]);
    assert_eq!(one_way, other_way);
    assert_eq!(one_way.len(), 2);
    let handed = store.handed.borrow();
    assert_eq!(
        handed[0].group_by,
        vec![SdkEventDimensions::Platform, SdkEventDimensions::PaymentMethod]
    );
    assert_eq!(
        handed[1].group_by,
        vec![SdkEventDimensions::PaymentMethod, SdkEventDimensions::Platform]
    );
}
