use crate::domain::SdkEventDimensions;
use vstd::prelude::*;

verus! {

/// `bigdecimal::BigDecimal`, an arbitrary-precision decimal number. A total
/// is carried from the backend to the caller as it is; nothing here looks
/// inside one.
#[verifier::external_type_specification]
#[verifier::external_body]
pub struct ExBigDecimal(bigdecimal::BigDecimal);

/// What a string that may be absent holds.
pub open spec fn text(value: Option<String>) -> Option<Seq<char>> {
    match value {
        Some(s) => Some(s@),
        None => None,
    }
}

/// One aggregated row as a backend returns it. A column is `None` where the
/// metric does not fill it: a count leaves `total` empty.
#[derive(Debug, PartialEq, Eq)]
pub struct SdkEventMetricRow {
    pub total: Option<bigdecimal::BigDecimal>,
    pub count: Option<i64>,
    pub time_bucket: Option<String>,
    pub payment_method: Option<String>,
    pub platform: Option<String>,
    pub browser_name: Option<String>,
    pub source: Option<String>,
    pub component: Option<String>,
    pub payment_experience: Option<String>,
}

impl SdkEventMetricRow {
    /// The column of `dimension`.
    pub open spec fn column(&self, dimension: SdkEventDimensions) -> Option<String> {
        match dimension {
            SdkEventDimensions::PaymentMethod => self.payment_method,
            SdkEventDimensions::Platform => self.platform,
            SdkEventDimensions::BrowserName => self.browser_name,
            SdkEventDimensions::Source => self.source,
            SdkEventDimensions::Component => self.component,
            SdkEventDimensions::PaymentExperience => self.payment_experience,
        }
    }

    /// The bucket that the row belongs to: its time bucket and its value on
    /// each dimension. Nothing but the row itself enters.
    pub open spec fn bucket(&self) -> BucketKey {
        BucketKey {
            time_bucket: text(self.time_bucket),
            dimension_values: Map::new(
                |dimension: SdkEventDimensions| true,
                |dimension: SdkEventDimensions| text(self.column(dimension)),
            ),
        }
    }

    /// The row's value on `dimension`.
    pub fn dimension_value(&self, dimension: SdkEventDimensions) -> (value: &Option<String>)
        ensures
            *value == self.column(dimension),
            text(*value) == self.bucket().dimension_values[dimension],
    {
        match dimension {
            SdkEventDimensions::PaymentMethod => &self.payment_method,
            SdkEventDimensions::Platform => &self.platform,
            SdkEventDimensions::BrowserName => &self.browser_name,
            SdkEventDimensions::Source => &self.source,
            SdkEventDimensions::Component => &self.component,
            SdkEventDimensions::PaymentExperience => &self.payment_experience,
        }
    }
}

/// A bucket: a time bucket, absent where the period is not cut, and for
/// every dimension the value of the bucket's events, absent where the rows
/// are not broken out by it.
pub struct BucketKey {
    pub time_bucket: Option<Seq<char>>,
    pub dimension_values: Map<SdkEventDimensions, Option<Seq<char>>>,
}

/// The key of one aggregated row. It is derived from a row, never supplied
/// beside it.
#[derive(Clone, Debug, PartialEq, Eq, Hash)]
pub struct SdkEventMetricsBucketIdentifier {
    pub payment_method: Option<String>,
    pub platform: Option<String>,
    pub browser_name: Option<String>,
    pub source: Option<String>,
    pub component: Option<String>,
    pub payment_experience: Option<String>,
    pub time_bucket: Option<String>,
}

impl View for SdkEventMetricsBucketIdentifier {
    type V = BucketKey;

    open spec fn view(&self) -> BucketKey {
        BucketKey {
            time_bucket: text(self.time_bucket),
            dimension_values: Map::new(
                |dimension: SdkEventDimensions| true,
                |dimension: SdkEventDimensions| text(self.column(dimension)),
            ),
        }
    }
}

/// Whether two strings that may be absent hold the same.
fn same_text(left: &Option<String>, right: &Option<String>) -> (same: bool)
    ensures
        same == (text(*left) == text(*right)),
{
    match (left, right) {
        (None, None) => true,
        (Some(l), Some(r)) => *l == *r,
        _ => false,
    }
}

/// A copy of a string that may be absent.
fn copy_text(value: &Option<String>) -> (copy: Option<String>)
    ensures
        copy == *value,
{
    match value {
        Some(s) => Some(s.clone()),
        None => None,
    }
}

impl SdkEventMetricsBucketIdentifier {
    /// The field of `dimension`.
    pub open spec fn column(&self, dimension: SdkEventDimensions) -> Option<String> {
        match dimension {
            SdkEventDimensions::PaymentMethod => self.payment_method,
            SdkEventDimensions::Platform => self.platform,
            SdkEventDimensions::BrowserName => self.browser_name,
            SdkEventDimensions::Source => self.source,
            SdkEventDimensions::Component => self.component,
            SdkEventDimensions::PaymentExperience => self.payment_experience,
        }
    }

    pub fn new(
        payment_method: Option<String>,
        platform: Option<String>,
        browser_name: Option<String>,
        source: Option<String>,
        component: Option<String>,
        payment_experience: Option<String>,
        time_bucket: Option<String>,
    ) -> (identifier: SdkEventMetricsBucketIdentifier)
        ensures
            identifier == (SdkEventMetricsBucketIdentifier {
                payment_method,
                platform,
                browser_name,
                source,
                component,
                payment_experience,
                time_bucket,
            }),
    {
        SdkEventMetricsBucketIdentifier {
            payment_method,
            platform,
            browser_name,
            source,
            component,
            payment_experience,
            time_bucket,
        }
    }

    /// The identifier of the bucket that `row` belongs to.
    pub fn of_row(row: &SdkEventMetricRow) -> (identifier: SdkEventMetricsBucketIdentifier)
        ensures
            identifier@ == row.bucket(),
    {
        let identifier = SdkEventMetricsBucketIdentifier::new(
            copy_text(&row.payment_method),
            copy_text(&row.platform),
            copy_text(&row.browser_name),
            copy_text(&row.source),
            copy_text(&row.component),
            copy_text(&row.payment_experience),
            copy_text(&row.time_bucket),
        );
        proof {
            assert forall|dimension: SdkEventDimensions|
                text(identifier.column(dimension)) == text(row.column(dimension)) by {}
            assert(identifier@.dimension_values =~= row.bucket().dimension_values);
        }
        identifier
    }

    /// The identifier's value on `dimension`.
    pub fn dimension_value(&self, dimension: SdkEventDimensions) -> (value: &Option<String>)
        ensures
            *value == self.column(dimension),
            text(*value) == self@.dimension_values[dimension],
    {
        match dimension {
            SdkEventDimensions::PaymentMethod => &self.payment_method,
            SdkEventDimensions::Platform => &self.platform,
            SdkEventDimensions::BrowserName => &self.browser_name,
            SdkEventDimensions::Source => &self.source,
            SdkEventDimensions::Component => &self.component,
            SdkEventDimensions::PaymentExperience => &self.payment_experience,
        }
    }

    /// Whether `self` and `other` name the same bucket.
    pub fn same_bucket(&self, other: &SdkEventMetricsBucketIdentifier) -> (same: bool)
        ensures
            same == (self@ == other@),
    {
        let same = same_text(&self.time_bucket, &other.time_bucket) && same_text(
            &self.payment_method,
            &other.payment_method,
        ) && same_text(&self.platform, &other.platform) && same_text(
            &self.browser_name,
            &other.browser_name,
        ) && same_text(&self.source, &other.source) && same_text(&self.component, &other.component)
            && same_text(&self.payment_experience, &other.payment_experience);
        proof {
            assert(self@.dimension_values.dom() =~= Set::<SdkEventDimensions>::full());
            assert(other@.dimension_values.dom() =~= Set::<SdkEventDimensions>::full());
            lemma_same_bucket_same_columns(self@, other@);
            if same {
                assert forall|dimension: SdkEventDimensions|
                    self@.dimension_values[dimension] == other@.dimension_values[dimension] by {
                    assert(text(self.column(dimension)) == text(other.column(dimension)));
                }
            } else {
                assert(self@.time_bucket != other@.time_bucket || exists|
                    dimension: SdkEventDimensions,
                |
                    self@.dimension_values[dimension] != other@.dimension_values[dimension]) by {
                    if self@.time_bucket == other@.time_bucket {
                        let dimension = if text(self.payment_method) != text(other.payment_method) {
                            SdkEventDimensions::PaymentMethod
                        } else if text(self.platform) != text(other.platform) {
                            SdkEventDimensions::Platform
                        } else if text(self.browser_name) != text(other.browser_name) {
                            SdkEventDimensions::BrowserName
                        } else if text(self.source) != text(other.source) {
                            SdkEventDimensions::Source
                        } else if text(self.component) != text(other.component) {
                            SdkEventDimensions::Component
                        } else {
                            SdkEventDimensions::PaymentExperience
                        };
                        assert(text(self.column(dimension)) != text(other.column(dimension)));
                        assert(self@.dimension_values[dimension]
                            != other@.dimension_values[dimension]);
                    }
                }
            }
        }
        same
    }
}

/// Two buckets are the same exactly when they have the same time bucket and
/// the same value on every dimension.
pub proof fn lemma_same_bucket_same_columns(left: BucketKey, right: BucketKey)
    requires
        left.dimension_values.dom() == Set::<SdkEventDimensions>::full(),
        right.dimension_values.dom() == Set::<SdkEventDimensions>::full(),
    ensures
        left == right <==> (left.time_bucket == right.time_bucket && forall|
            dimension: SdkEventDimensions,
        |
            left.dimension_values[dimension] == right.dimension_values[dimension]),
{
    if left.time_bucket == right.time_bucket && forall|dimension: SdkEventDimensions|
        left.dimension_values[dimension] == right.dimension_values[dimension] {
        assert(left.dimension_values =~= right.dimension_values);
    }
}

/// Rows that agree on the time bucket and on every dimension belong to one
/// bucket, and rows that differ on any of them belong to two.
pub proof fn lemma_bucket_injective(left: SdkEventMetricRow, right: SdkEventMetricRow)
    ensures
        left.bucket() == right.bucket() <==> (text(left.time_bucket) == text(right.time_bucket)
            && forall|dimension: SdkEventDimensions|
            text(left.column(dimension)) == text(right.column(dimension))),
{
    assert(left.bucket().dimension_values.dom() =~= Set::<SdkEventDimensions>::full());
    assert(right.bucket().dimension_values.dom() =~= Set::<SdkEventDimensions>::full());
    lemma_same_bucket_same_columns(left.bucket(), right.bucket());
    let ours = left.bucket().dimension_values;
    let theirs = right.bucket().dimension_values;
    if left.bucket() == right.bucket() {
        assert forall|dimension: SdkEventDimensions|
            text(left.column(dimension)) == text(right.column(dimension)) by {
            assert(ours[dimension] == theirs[dimension]);
        }
    } else {
        if text(left.time_bucket) == text(right.time_bucket) {
            let dimension = choose|dimension: SdkEventDimensions|
                ours[dimension] != theirs[dimension];
            assert(text(left.column(dimension)) != text(right.column(dimension)));
        }
    }
}

} // verus!
