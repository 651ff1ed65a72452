//! Message query planning: turns a raw query request into an unambiguous
//! fetch specification for the store, or rejects it.

use vstd::prelude::*;

verus! {

/// Sort order for retrieved messages.
#[derive(Clone, Copy, PartialEq, Eq, Structural, Debug)]
pub enum MessageSort {
    /// Most relevant first.
    Relevance,
    /// Newest first.
    Latest,
    /// Oldest first.
    Oldest,
}

impl Default for MessageSort {
    /// Relevance ranking.
    fn default() -> (r: Self)
        ensures
            r == MessageSort::Relevance,
    {
        MessageSort::Relevance
    }
}

/// The time window of a query: exactly one of a relative window centred on
/// a message, or an absolute window bounded by message ids.
#[derive(Clone, PartialEq, Eq, Debug)]
pub enum MessageTimePeriod {
    /// Search around one message. A relative window ignores `before`,
    /// `after` and `sort` even when they are also supplied.
    Relative {
        /// Id of the message to search around; it is itself fetched.
        nearby: String,
    },
    /// Search within absolute bounds.
    Absolute {
        /// Fetch messages before this id.
        before: Option<String>,
        /// Fetch messages after this id.
        after: Option<String>,
        /// Sort direction; when absent, relevance ranking if the query has
        /// a text filter, else newest first.
        sort: Option<MessageSort>,
    },
}

/// The filters of a message query.
#[derive(Clone, PartialEq, Eq, Debug)]
pub struct MessageFilter {
    /// Parent channel id.
    pub channel: Option<String>,
    /// Message author id.
    pub author: Option<String>,
    /// Free-text search query.
    pub query: Option<String>,
}

/// A raw message query request, as the transport hands it over.
#[derive(Clone, PartialEq, Eq, Debug)]
pub struct MessageQuery {
    /// Maximum number of messages to fetch. Absent means "as many as the
    /// configuration allows".
    pub limit: Option<i64>,
    /// Filters to apply.
    pub filter: MessageFilter,
    /// Time window to fetch.
    pub time_period: MessageTimePeriod,
}

/// The normalized window of a fetch specification.
#[derive(Clone, PartialEq, Eq, Debug)]
pub enum FetchWindow {
    /// Fetch around one message, which is itself included: `before_count`
    /// messages up to and including the centre, `after_count` after it.
    /// The limit splits as evenly as possible; an odd limit gives the
    /// after side the smaller share.
    Nearby {
        /// Id of the centre message.
        id: String,
        /// Messages fetched on the before side, the centre included.
        before_count: i64,
        /// Messages fetched after the centre.
        after_count: i64,
    },
    /// Fetch within absolute bounds, in a definite sort order.
    Absolute {
        /// Fetch messages before this id.
        before: Option<String>,
        /// Fetch messages after this id.
        after: Option<String>,
        /// The effective sort direction.
        sort: MessageSort,
    },
}

/// A normalized fetch specification, ready for the store.
#[derive(Clone, PartialEq, Eq, Debug)]
pub struct FetchPlan {
    /// Filters to apply.
    pub filter: MessageFilter,
    /// The effective fetch limit.
    pub limit: i64,
    /// The normalized window.
    pub window: FetchWindow,
}

/// A query request was malformed; no fetch, partial or otherwise, is
/// performed.
#[derive(Clone, Copy, PartialEq, Eq, Structural, Debug)]
pub enum InvalidQuery {
    /// The requested limit was zero or negative.
    NonPositiveLimit {
        /// The limit the request carried.
        limit: i64,
    },
    /// The requested limit exceeded the configured maximum.
    LimitOverMaximum {
        /// The limit the request carried.
        limit: i64,
        /// The configured maximum.
        max: i64,
    },
}

/// The limit a query effectively requests: its own, or the configured
/// maximum when it names none.
pub open spec fn spec_requested_limit(q: MessageQuery, max_limit: i64) -> i64 {
    match q.limit {
        Some(l) => l,
        None => max_limit,
    }
}

/// Messages fetched after the centre of a relative window: the smaller
/// half of the limit.
pub open spec fn spec_nearby_after_count(limit: i64) -> i64 {
    (((limit as u64) / 2) as i64)
}

/// Messages fetched up to and including the centre of a relative window:
/// the rest of the limit.
pub open spec fn spec_nearby_before_count(limit: i64) -> i64 {
    (((limit as u64) - (limit as u64) / 2) as i64)
}

/// The sort an absolute window defaults to: relevance ranking when the
/// query has a text filter, else newest first.
pub open spec fn spec_default_sort(filter: MessageFilter) -> MessageSort {
    if filter.query is Some {
        MessageSort::Relevance
    } else {
        MessageSort::Latest
    }
}

/// The fetch specification a valid query normalizes to.
pub open spec fn spec_plan(q: MessageQuery, max_limit: i64) -> FetchPlan {
    let limit = spec_requested_limit(q, max_limit);
    FetchPlan {
        filter: q.filter,
        limit,
        window: match q.time_period {
            MessageTimePeriod::Relative { nearby } => FetchWindow::Nearby {
                id: nearby,
                before_count: spec_nearby_before_count(limit),
                after_count: spec_nearby_after_count(limit),
            },
            MessageTimePeriod::Absolute { before, after, sort } => FetchWindow::Absolute {
                before,
                after,
                sort: match sort {
                    Some(s) => s,
                    None => spec_default_sort(q.filter),
                },
            },
        },
    }
}

/// Validates and normalizes a query request.
///
/// A relative window silently overrides `before`, `after` and `sort`, and
/// splits the limit as evenly as possible across the centre message,
/// itself included on the before side; an odd limit gives the after side
/// the smaller share. An absolute window resolves its sort direction.
/// A non-positive or over-maximum limit is the one error.
pub fn plan_query(q: MessageQuery, max_limit: i64) -> (r: Result<FetchPlan, InvalidQuery>)
    ensures
        r is Ok <==> 0 < spec_requested_limit(q, max_limit) <= max_limit,
        r matches Ok(plan) ==> plan == spec_plan(q, max_limit),
        spec_requested_limit(q, max_limit) <= 0 ==> r == Err::<FetchPlan, InvalidQuery>(
            (InvalidQuery::NonPositiveLimit { limit: spec_requested_limit(q, max_limit) }),
        ),
        0 < spec_requested_limit(q, max_limit) && spec_requested_limit(q, max_limit) > max_limit
            ==> r == Err::<FetchPlan, InvalidQuery>(
            (InvalidQuery::LimitOverMaximum {
                limit: spec_requested_limit(q, max_limit),
                max: max_limit,
            }),
        ),
{
    let limit = match q.limit {
        Some(l) => l,
        None => max_limit,
    };
    if limit <= 0 {
        return Err(InvalidQuery::NonPositiveLimit { limit });
    }
    if limit > max_limit {
        return Err(InvalidQuery::LimitOverMaximum { limit, max: max_limit });
    }
    let window = match q.time_period {
        MessageTimePeriod::Relative { nearby } => {
            let lu = limit as u64;
            proof {
                assert(lu / 2 <= lu) by (bit_vector);
            }
            let after_u = lu / 2;
            let before_u = lu - after_u;
            FetchWindow::Nearby {
                id: nearby,
                before_count: before_u as i64,
                after_count: after_u as i64,
            }
        },
        MessageTimePeriod::Absolute { before, after, sort } => {
            let effective_sort = match sort {
                Some(s) => s,
                None => {
                    if q.filter.query.is_some() {
                        MessageSort::Relevance
                    } else {
                        MessageSort::Latest
                    }
                },
            };
            FetchWindow::Absolute { before, after, sort: effective_sort }
        },
    };
    Ok(FetchPlan { filter: q.filter, limit, window })
}

} // verus!
