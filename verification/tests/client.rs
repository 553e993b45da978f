use pobbin::sentry::{Level, Span, SpanId, SpanStatus, Timestamp, TraceContext, TraceId};
use pobbin::sentry_client::{
    Breadcrumb, Options, Request, Sentry, TransactionContext, User,
};

fn client() -> Sentry {
    Sentry::new(
        Options {
            project: "1234".to_string(),
            token: "key".to_string(),
        },
        TraceId([1; 16]),
    )
}

fn crumb(message: &str) -> Breadcrumb {
    Breadcrumb {
        timestamp: Timestamp(1),
        ty: None,
        category: None,
        level: Level::Info,
        message: Some(message.to_string()),
        data: Vec::new(),
    }
}

fn trace(op: &str) -> TraceContext {
    TraceContext {
        span_id: SpanId([2; 8]),
        trace_id: TraceId([1; 16]),
        parent_span_id: None,
        op: Some(op.to_string()),
        description: None,
        status: None,
    }
}

fn span(op: &str) -> Span {
    Span {
        span_id: SpanId([3; 8]),
        trace_id: TraceId([1; 16]),
        parent_span_id: None,
        same_process_as_parent: None,
        op: Some(op.to_string()),
        description: None,
        timestamp: None,
        start_timestamp: Timestamp(0),
        status: None,
        tags: Vec::new(),
        data: Vec::new(),
    }
}

#[test]
fn where_envelopes_go() {
    let c = client();
    assert_eq!(c.envelope_url(), "https://sentry.io/api/1234/envelope/");
    assert_eq!(
        c.auth_header(),
        "Sentry sentry_version=7, sentry_client=pobb.in/1.0, sentry_key=key"
    );
}

#[test]
fn a_new_client_has_gathered_nothing() {
    let c = client();
    let e = c.capture_event();
    assert!(e.transaction.is_none());
    assert!(e.breadcrumbs.is_empty());
    assert!(e.server_name.is_none());
    assert!(e.request.is_none());
    assert!(e.user.is_none());
    assert!(e.trace.is_none());
}

#[test]
fn debug_errors_are_not_reported() {
    let c = client();
    assert!(c.capture_err("x".to_string(), Level::Debug).is_none());
    assert!(c.capture_err_level("x".to_string(), Level::Debug).is_none());
    for level in [Level::Info, Level::Warning, Level::Error, Level::Fatal] {
        let capture = c.capture_err_level("boom".to_string(), level).unwrap();
        assert_eq!(capture.message, "boom");
        assert_eq!(capture.level, level);
        assert!(c.capture_err("boom".to_string(), level).is_some());
    }
}

#[test]
fn a_report_carries_what_was_gathered() {
    let mut c = client();
    c.set_user(Some(User {
        username: Some("alice".to_string()),
        ip_address: None,
        country: None,
    }));
    c.user_mut().unwrap().country = Some("NZ".to_string());
    c.set_request(Some(Request {
        url: Some("https://pobb.in/u/alice?x=1".to_string()),
        method: Some("GET".to_string()),
        headers: Vec::new(),
        data: None,
    }));
    c.add_breadcrumb(crumb("one"));
    c.add_breadcrumb(crumb("two"));
    let e = c.capture_event();
    assert_eq!(e.server_name.as_deref(), Some("pobb.in"));
    assert_eq!(e.user.unwrap().username.as_deref(), Some("alice"));
    assert_eq!(e.user.unwrap().country.as_deref(), Some("NZ"));
    assert_eq!(e.request.unwrap().method.as_deref(), Some("GET"));
    assert_eq!(e.breadcrumbs.len(), 2);
    assert_eq!(e.breadcrumbs[1].message.as_deref(), Some("two"));

    c.set_request(Some(Request {
        url: Some("not a url".to_string()),
        method: None,
        headers: Vec::new(),
        data: None,
    }));
    assert!(c.capture_event().server_name.is_none());
    c.set_request(Some(Request {
        url: None,
        method: None,
        headers: Vec::new(),
        data: None,
    }));
    assert!(c.capture_event().server_name.is_none());
    c.set_user(None);
    assert!(c.user_mut().is_none());
    assert!(c.capture_event().user.is_none());
}

#[test]
fn the_innermost_trace_context_goes_with_a_report() {
    let mut c = client();
    c.set_trace_id(TraceId([9; 16]));
    c.start_transaction(
        TransactionContext {
            name: "GET /abcde".to_string(),
            op: "http.server".to_string(),
        },
        SpanId([7; 8]),
    );
    {
        let e = c.capture_event();
        assert_eq!(e.transaction, Some("GET /abcde"));
        let t = e.trace.unwrap();
        assert_eq!(t.op.as_deref(), Some("http.server"));
        assert_eq!(t.trace_id, TraceId([9; 16]));
        assert_eq!(t.span_id, SpanId([7; 8]));
        assert_eq!(t.status, None);
    }
    c.push_trace_context(trace("outer"));
    c.push_trace_context(trace("inner"));
    assert_eq!(c.capture_event().trace.unwrap().op.as_deref(), Some("inner"));
    c.pop_trace_context();
    assert_eq!(c.capture_event().trace.unwrap().op.as_deref(), Some("outer"));
    c.pop_trace_context();
    c.pop_trace_context();
    assert_eq!(
        c.capture_event().trace.unwrap().op.as_deref(),
        Some("http.server")
    );
}

#[test]
fn a_transaction_gathers_spans_until_it_is_finished() {
    let mut c = client();
    // nothing is open
    c.add_span(span("lost"));
    c.update_transaction(SpanStatus::NotFound);
    assert!(c.finish_transaction().is_none());

    c.start_transaction(
        TransactionContext {
            name: "PUT /abcde".to_string(),
            op: "http.server".to_string(),
        },
        SpanId([7; 8]),
    );
    c.add_span(span("store.put"));
    c.add_span(span("cache.purge"));
    c.update_transaction(SpanStatus::Okay);
    let (transaction, trace) = c.finish_transaction().unwrap();
    assert_eq!(transaction.name.as_deref(), Some("PUT /abcde"));
    assert_eq!(transaction.spans.len(), 2);
    assert_eq!(transaction.spans[0].op.as_deref(), Some("store.put"));
    assert_eq!(transaction.spans[1].op.as_deref(), Some("cache.purge"));
    assert_eq!(trace.status, Some(SpanStatus::Okay));
    assert_eq!(trace.trace_id, TraceId([1; 16]));
    assert!(c.finish_transaction().is_none());
    assert!(c.capture_event().transaction.is_none());
}
