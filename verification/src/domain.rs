use vstd::prelude::*;

verus! {

/// The metrics that can be computed over the events a payment SDK emits.
#[derive(Clone, Copy, Debug, PartialEq, Eq, Hash, Structural)]
pub enum SdkEventMetrics {
    PaymentAttempts,
    PaymentMethodsCallCount,
    SdkRenderedCount,
    SdkInitiatedCount,
    PaymentMethodSelectedCount,
    PaymentDataFilledCount,
    AveragePaymentTime,
    ThreeDsMethodSkippedCount,
    ThreeDsMethodInvokedCount,
    ThreeDsMethodSuccessfulCount,
    ThreeDsMethodUnsuccessfulCount,
    AuthenticationUnsuccessfulCount,
    ThreeDsChallengeFlowCount,
    ThreeDsFrictionlessFlowCount,
}

/// The axes along which a metric can be broken out.
#[derive(Clone, Copy, Debug, PartialEq, Eq, Hash, Structural)]
pub enum SdkEventDimensions {
    PaymentMethod,
    Platform,
    BrowserName,
    Source,
    Component,
    PaymentExperience,
}

/// The width of the time buckets a period is cut into.
#[derive(Clone, Copy, Debug, PartialEq, Eq, Hash, Structural)]
pub enum Granularity {
    OneMin,
    FiveMin,
    FifteenMin,
    ThirtyMin,
    OneHour,
    OneDay,
}

impl Granularity {
    /// The width of a bucket, in seconds.
    pub open spec fn width(&self) -> int {
        match self {
            Granularity::OneMin => 60,
            Granularity::FiveMin => 300,
            Granularity::FifteenMin => 900,
            Granularity::ThirtyMin => 1_800,
            Granularity::OneHour => 3_600,
            Granularity::OneDay => 86_400,
        }
    }

    /// The width of a bucket, in seconds.
    pub fn seconds(&self) -> (width: u32)
        ensures
            width == self.width(),
    {
        match self {
            Granularity::OneMin => 60,
            Granularity::FiveMin => 300,
            Granularity::FifteenMin => 900,
            Granularity::ThirtyMin => 1_800,
            Granularity::OneHour => 3_600,
            Granularity::OneDay => 86_400,
        }
    }
}

/// The half-open period `[start_time, end_time)` whose events are counted.
/// Both ends are nanoseconds since the Unix epoch, in UTC.
#[derive(Clone, Copy, Debug, PartialEq, Eq, Hash, Structural)]
pub struct TimeRange {
    pub start_time: i128,
    pub end_time: i128,
}

impl TimeRange {
    /// A period is valid when it starts before it ends.
    pub open spec fn valid(&self) -> bool {
        self.start_time < self.end_time
    }

    /// Whether the instant `at` lies in the period.
    pub open spec fn covers(&self, at: int) -> bool {
        self.start_time <= at < self.end_time
    }

    /// The period from `start_time` up to, and without, `end_time`; `None`
    /// unless it starts before it ends.
    pub fn new(start_time: i128, end_time: i128) -> (range: Option<TimeRange>)
        ensures
            start_time < end_time ==> range == Some(TimeRange { start_time, end_time }),
            start_time >= end_time ==> range is None,
    {
        if start_time < end_time {
            Some(TimeRange { start_time, end_time })
        } else {
            None
        }
    }

    pub fn is_valid(&self) -> (valid: bool)
        ensures
            valid == self.valid(),
    {
        self.start_time < self.end_time
    }
}

/// A set of dimensions, one flag for each.
#[derive(Clone, Copy, Debug, PartialEq, Eq, Hash, Structural)]
pub struct DimensionSet {
    pub payment_method: bool,
    pub platform: bool,
    pub browser_name: bool,
    pub source: bool,
    pub component: bool,
    pub payment_experience: bool,
}

impl View for DimensionSet {
    type V = Set<SdkEventDimensions>;

    open spec fn view(&self) -> Set<SdkEventDimensions> {
        Set::new(|dimension: SdkEventDimensions| self.flag(dimension))
    }
}

impl DimensionSet {
    /// Whether `dimension` is in the set.
    pub open spec fn flag(&self, dimension: SdkEventDimensions) -> bool {
        match dimension {
            SdkEventDimensions::PaymentMethod => self.payment_method,
            SdkEventDimensions::Platform => self.platform,
            SdkEventDimensions::BrowserName => self.browser_name,
            SdkEventDimensions::Source => self.source,
            SdkEventDimensions::Component => self.component,
            SdkEventDimensions::PaymentExperience => self.payment_experience,
        }
    }

    /// The set of all six dimensions.
    pub open spec fn every() -> DimensionSet {
        DimensionSet {
            payment_method: true,
            platform: true,
            browser_name: true,
            source: true,
            component: true,
            payment_experience: true,
        }
    }

    /// The set without any dimension.
    pub fn empty() -> (set: DimensionSet)
        ensures
            set@ == Set::<SdkEventDimensions>::empty(),
    {
        let set = DimensionSet {
            payment_method: false,
            platform: false,
            browser_name: false,
            source: false,
            component: false,
            payment_experience: false,
        };
        assert(set@ =~= Set::<SdkEventDimensions>::empty());
        set
    }

    /// The set of all six dimensions.
    pub fn all() -> (set: DimensionSet)
        ensures
            set == DimensionSet::every(),
            set@ == Set::<SdkEventDimensions>::full(),
    {
        let set = DimensionSet {
            payment_method: true,
            platform: true,
            browser_name: true,
            source: true,
            component: true,
            payment_experience: true,
        };
        assert(set@ =~= Set::<SdkEventDimensions>::full());
        set
    }

    pub fn contains(&self, dimension: SdkEventDimensions) -> (found: bool)
        ensures
            found == self@.contains(dimension),
    {
        match dimension {
            SdkEventDimensions::PaymentMethod => self.payment_method,
            SdkEventDimensions::Platform => self.platform,
            SdkEventDimensions::BrowserName => self.browser_name,
            SdkEventDimensions::Source => self.source,
            SdkEventDimensions::Component => self.component,
            SdkEventDimensions::PaymentExperience => self.payment_experience,
        }
    }

    pub fn insert(&mut self, dimension: SdkEventDimensions)
        ensures
            final(self)@ == old(self)@.insert(dimension),
    {
        match dimension {
            SdkEventDimensions::PaymentMethod => {
                self.payment_method = true;
            },
            SdkEventDimensions::Platform => {
                self.platform = true;
            },
            SdkEventDimensions::BrowserName => {
                self.browser_name = true;
            },
            SdkEventDimensions::Source => {
                self.source = true;
            },
            SdkEventDimensions::Component => {
                self.component = true;
            },
            SdkEventDimensions::PaymentExperience => {
                self.payment_experience = true;
            },
        }
        assert(self@ =~= old(self)@.insert(dimension));
    }
}

/// The values a caller keeps, dimension by dimension. An event passes when,
/// for every dimension with a non-empty list, its value is in the list.
#[derive(Clone, Debug, PartialEq, Eq)]
pub struct SdkEventFilters {
    pub payment_method: Vec<String>,
    pub platform: Vec<String>,
    pub browser_name: Vec<String>,
    pub source: Vec<String>,
    pub component: Vec<String>,
    pub payment_experience: Vec<String>,
}

impl View for SdkEventFilters {
    type V = Map<SdkEventDimensions, Seq<Seq<char>>>;

    /// For each dimension, the values that are kept.
    open spec fn view(&self) -> Map<SdkEventDimensions, Seq<Seq<char>>> {
        Map::new(
            |dimension: SdkEventDimensions| true,
            |dimension: SdkEventDimensions| self.kept(dimension).deep_view(),
        )
    }
}

impl SdkEventFilters {
    /// The list that narrows `dimension`.
    pub open spec fn kept(&self, dimension: SdkEventDimensions) -> Vec<String> {
        match dimension {
            SdkEventDimensions::PaymentMethod => self.payment_method,
            SdkEventDimensions::Platform => self.platform,
            SdkEventDimensions::BrowserName => self.browser_name,
            SdkEventDimensions::Source => self.source,
            SdkEventDimensions::Component => self.component,
            SdkEventDimensions::PaymentExperience => self.payment_experience,
        }
    }

    /// Filters that keep every event.
    pub fn none() -> (filters: SdkEventFilters)
        ensures
            forall|dimension: SdkEventDimensions| #[trigger]
                filters@[dimension] == Seq::<Seq<char>>::empty(),
    {
        let filters = SdkEventFilters {
            payment_method: Vec::new(),
            platform: Vec::new(),
            browser_name: Vec::new(),
            source: Vec::new(),
            component: Vec::new(),
            payment_experience: Vec::new(),
        };
        assert forall|dimension: SdkEventDimensions| #[trigger]
            filters@[dimension] == Seq::<Seq<char>>::empty() by {
            assert(filters.kept(dimension).deep_view() =~= Seq::<Seq<char>>::empty());
        }
        filters
    }

    /// The list that narrows `dimension`.
    pub fn values(&self, dimension: SdkEventDimensions) -> (list: &Vec<String>)
        ensures
            *list == self.kept(dimension),
            list.deep_view() == self@[dimension],
    {
        match dimension {
            SdkEventDimensions::PaymentMethod => &self.payment_method,
            SdkEventDimensions::Platform => &self.platform,
            SdkEventDimensions::BrowserName => &self.browser_name,
            SdkEventDimensions::Source => &self.source,
            SdkEventDimensions::Component => &self.component,
            SdkEventDimensions::PaymentExperience => &self.payment_experience,
        }
    }
}

/// Why a metric could not be loaded.
#[derive(Clone, Copy, Debug, PartialEq, Eq, Hash, Structural)]
pub enum MetricsError {
    /// The request cannot be turned into a query for the backend.
    QueryBuildError,
    /// The backend did not run the query.
    QueryExecutionError,
    /// A row that the backend returned could not be read.
    RowParseError,
}

pub type MetricsResult<T> = Result<T, MetricsError>;

} // verus!
