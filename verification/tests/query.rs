use chat_models::query::{
    plan_query, FetchWindow, InvalidQuery, MessageFilter, MessageQuery, MessageSort,
    MessageTimePeriod,
};

fn no_filter() -> MessageFilter {
    MessageFilter { channel: None, author: None, query: None }
}

fn nearby_query(limit: Option<i64>, id: &str) -> MessageQuery {
    MessageQuery {
        limit,
        filter: no_filter(),
        time_period: MessageTimePeriod::Relative { nearby: id.to_string() },
    }
}

#[test]
fn nearby_even_limit_splits_evenly() {
    let plan = plan_query(nearby_query(Some(10), "X"), 100).unwrap();
    assert_eq!(plan.limit, 10);
    match plan.window {
        FetchWindow::Nearby { id, before_count, after_count } => {
            assert_eq!(id, "X");
            assert_eq!(before_count, 5);
            assert_eq!(after_count, 5);
        }
        _ => panic!("expected a nearby window"),
    }
}

#[test]
fn nearby_odd_limit_gives_after_side_the_smaller_share() {
    let plan = plan_query(nearby_query(Some(9), "X"), 100).unwrap();
    match plan.window {
        FetchWindow::Nearby { before_count, after_count, .. } => {
            assert_eq!(before_count, 5);
            assert_eq!(after_count, 4);
        }
        _ => panic!("expected a nearby window"),
    }
}

#[test]
fn nearby_ignores_before_after_and_sort() {
    let q = MessageQuery {
        limit: Some(4),
        filter: no_filter(),
        time_period: MessageTimePeriod::Relative { nearby: "M".to_string() },
    };
    let plan = plan_query(q, 100).unwrap();
    match plan.window {
        FetchWindow::Nearby { id, before_count, after_count } => {
            assert_eq!(id, "M");
            assert_eq!(before_count, 2);
            assert_eq!(after_count, 2);
        }
        _ => panic!("expected a nearby window"),
    }
}

#[test]
fn absolute_sort_defaults_to_latest_without_text_query() {
    let q = MessageQuery {
        limit: Some(50),
        filter: no_filter(),
        time_period: MessageTimePeriod::Absolute { before: None, after: None, sort: None },
    };
    let plan = plan_query(q, 100).unwrap();
    match plan.window {
        FetchWindow::Absolute { sort, .. } => assert_eq!(sort, MessageSort::Latest),
        _ => panic!("expected an absolute window"),
    }
}

#[test]
fn absolute_sort_defaults_to_relevance_with_text_query() {
    let q = MessageQuery {
        limit: Some(50),
        filter: MessageFilter { channel: None, author: None, query: Some("hello".to_string()) },
        time_period: MessageTimePeriod::Absolute { before: None, after: None, sort: None },
    };
    let plan = plan_query(q, 100).unwrap();
    match plan.window {
        FetchWindow::Absolute { sort, .. } => assert_eq!(sort, MessageSort::Relevance),
        _ => panic!("expected an absolute window"),
    }
}

#[test]
fn absolute_explicit_sort_is_kept() {
    let q = MessageQuery {
        limit: Some(50),
        filter: MessageFilter { channel: None, author: None, query: Some("hello".to_string()) },
        time_period: MessageTimePeriod::Absolute {
            before: Some("B".to_string()),
            after: Some("A".to_string()),
            sort: Some(MessageSort::Oldest),
        },
    };
    let plan = plan_query(q, 100).unwrap();
    match plan.window {
        FetchWindow::Absolute { before, after, sort } => {
            assert_eq!(before.as_deref(), Some("B"));
            assert_eq!(after.as_deref(), Some("A"));
            assert_eq!(sort, MessageSort::Oldest);
        }
        _ => panic!("expected an absolute window"),
    }
}

#[test]
fn sort_defaults_to_relevance() {
    assert_eq!(MessageSort::default(), MessageSort::Relevance);
}

#[test]
fn zero_limit_is_rejected() {
    let r = plan_query(nearby_query(Some(0), "X"), 100);
    assert_eq!(r.unwrap_err(), InvalidQuery::NonPositiveLimit { limit: 0 });
}

#[test]
fn negative_limit_is_rejected() {
    let r = plan_query(nearby_query(Some(-3), "X"), 100);
    assert_eq!(r.unwrap_err(), InvalidQuery::NonPositiveLimit { limit: -3 });
}

#[test]
fn over_maximum_limit_is_rejected() {
    let r = plan_query(nearby_query(Some(101), "X"), 100);
    assert_eq!(r.unwrap_err(), InvalidQuery::LimitOverMaximum { limit: 101, max: 100 });
}

#[test]
fn absent_limit_requests_the_configured_maximum() {
    let plan = plan_query(nearby_query(None, "X"), 20).unwrap();
    assert_eq!(plan.limit, 20);
    match plan.window {
        FetchWindow::Nearby { before_count, after_count, .. } => {
            assert_eq!(before_count, 10);
            assert_eq!(after_count, 10);
        }
        _ => panic!("expected a nearby window"),
    }
}

#[test]
fn limit_equal_to_maximum_is_accepted() {
    let plan = plan_query(nearby_query(Some(100), "X"), 100).unwrap();
    assert_eq!(plan.limit, 100);
}
