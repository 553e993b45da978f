//! What is gathered over a request for the reports that it may send.

use vstd::prelude::*;
use crate::response::opt_text;
use crate::sentry::{Level, Span, SpanId, SpanStatus, TraceContext, TraceId, Timestamp};

verus! {

/// The project that reports go to, and the key that admits them.
#[derive(Debug)]
pub struct Options {
    pub project: String,
    pub token: String,
}

/// The name of a transaction and the kind of work it measures.
#[derive(Debug)]
pub struct TransactionContext {
    pub name: String,
    pub op: String,
}

/// Who made the request.
#[derive(Debug)]
pub struct User {
    pub username: Option<String>,
    pub ip_address: Option<String>,
    pub country: Option<String>,
}

/// The request that a report is about.
#[derive(Debug)]
pub struct Request {
    pub url: Option<String>,
    pub method: Option<String>,
    pub headers: Vec<(String, String)>,
    pub data: Option<String>,
}

/// A trace of what happened before a report.
#[derive(Debug)]
pub struct Breadcrumb {
    pub timestamp: Timestamp,
    pub ty: Option<String>,
    pub category: Option<String>,
    pub level: Level,
    pub message: Option<String>,
    /// Names and values, the values as JSON.
    pub data: Vec<(String, String)>,
}

/// A transaction that is open: its name and the spans that ended in it.
#[derive(Debug)]
pub struct Transaction {
    pub name: Option<String>,
    pub spans: Vec<Span>,
}

/// What a report is sent with: all of it borrowed from the client.
#[derive(Debug)]
pub struct EventContext<'a> {
    /// The name of the open transaction.
    pub transaction: Option<&'a str>,
    pub breadcrumbs: &'a [Breadcrumb],
    /// The host of the request's URL.
    pub server_name: Option<String>,
    pub request: Option<&'a Request>,
    pub user: Option<&'a User>,
    /// The innermost trace context; that of the open transaction where
    /// there is none.
    pub trace: Option<&'a TraceContext>,
}

/// An error that is to be reported.
#[derive(Debug)]
pub struct Capture<'a> {
    pub message: String,
    pub level: Level,
    pub context: EventContext<'a>,
}

/// The host of a URL, as the `url` crate reads it; none for a text that is
/// no URL and for a URL without a host.
pub uninterp spec fn host_of(url: Seq<char>) -> Option<Seq<char>>;

/// `Url::parse`, then `host_str`: whether a text is a URL with a host, and
/// what the host is, depends on the text alone.
#[verifier::external_body]
fn url_host(url: &str) -> (out: Option<String>)
    ensures
        opt_text(out) == host_of(url@),
{
    url::Url::parse(url).ok()?.host_str().map(|host| host.to_owned())
}

/// A transaction as values.
pub struct TransactionView {
    pub name: Option<String>,
    pub spans: Seq<Span>,
}

impl View for Transaction {
    type V = TransactionView;

    open spec fn view(&self) -> TransactionView {
        TransactionView { name: self.name, spans: self.spans@ }
    }
}

/// What a client has gathered.
pub struct SentryView {
    pub project: Seq<char>,
    pub token: Seq<char>,
    pub breadcrumbs: Seq<Breadcrumb>,
    /// The trace contexts that were entered and not yet left, the innermost
    /// last.
    pub trace_contexts: Seq<TraceContext>,
    pub trace_id: TraceId,
    pub user: Option<User>,
    pub request: Option<Request>,
    /// The open transaction with its own trace context.
    pub transaction: Option<(TransactionView, TraceContext)>,
}

impl SentryView {
    /// The trace context that a report is sent with: the innermost one that
    /// was entered; that of the open transaction where none was.
    pub open spec fn current_trace(self) -> Option<TraceContext> {
        if self.trace_contexts.len() > 0 {
            Some(self.trace_contexts.last())
        } else {
            match self.transaction {
                Some((_, trace)) => Some(trace),
                None => None,
            }
        }
    }

    /// The host of the URL of the request.
    pub open spec fn server_name(self) -> Option<Seq<char>> {
        match self.request {
            Some(request) => match request.url {
                Some(url) => host_of(url@),
                None => None,
            },
            None => None,
        }
    }

    /// The name of the open transaction.
    pub open spec fn transaction_name(self) -> Option<Seq<char>> {
        match self.transaction {
            Some((transaction, _)) => opt_text(transaction.name),
            None => None,
        }
    }
}

/// The client of one request.
#[derive(Debug)]
pub struct Sentry {
    project: String,
    token: String,
    breadcrumbs: Vec<Breadcrumb>,
    trace_context: Vec<TraceContext>,
    trace_id: TraceId,
    user: Option<User>,
    request: Option<Request>,
    transaction: Option<(Transaction, TraceContext)>,
}

/// The trace context of a transaction that starts in the trace `trace_id`
/// as the span `span_id`.
pub open spec fn transaction_trace(trace_id: TraceId, span_id: SpanId, op: String) -> TraceContext {
    TraceContext {
        span_id,
        trace_id,
        parent_span_id: None,
        op: Some(op),
        description: None,
        status: None,
    }
}

impl View for Sentry {
    type V = SentryView;

    closed spec fn view(&self) -> SentryView {
        SentryView {
            project: self.project@,
            token: self.token@,
            breadcrumbs: self.breadcrumbs@,
            trace_contexts: self.trace_context@,
            trace_id: self.trace_id,
            user: self.user,
            request: self.request,
            transaction: match self.transaction {
                Some((transaction, trace)) => Some((transaction@, trace)),
                None => None,
            },
        }
    }
}

impl Sentry {
    /// A client that has gathered nothing.
    pub fn new(options: Options, trace_id: TraceId) -> (out: Self)
        ensures
            out@ == (SentryView {
                project: options.project@,
                token: options.token@,
                breadcrumbs: Seq::empty(),
                trace_contexts: Seq::empty(),
                trace_id,
                user: None,
                request: None,
                transaction: None,
            }),
    {
        Sentry {
            project: options.project,
            token: options.token,
            breadcrumbs: Vec::new(),
            trace_context: Vec::new(),
            trace_id,
            user: None,
            request: None,
            transaction: None,
        }
    }

    pub fn set_trace_id(&mut self, trace_id: TraceId)
        ensures
            final(self)@ == (SentryView { trace_id, ..old(self)@ }),
    {
        self.trace_id = trace_id;
    }

    pub fn set_user(&mut self, user: Option<User>)
        ensures
            final(self)@ == (SentryView { user, ..old(self)@ }),
    {
        self.user = user;
    }

    /// The user, to be changed in place.
    pub fn user_mut(&mut self) -> (out: Option<&mut User>)
        ensures
            match old(self)@.user {
                Some(user) => out is Some && *out->0 == user && final(self)@ == (SentryView {
                    user: Some(*final(out->0)),
                    ..old(self)@
                }),
                None => out is None && final(self)@ == old(self)@,
            },
    {
        self.user.as_mut()
    }

    pub fn set_request(&mut self, request: Option<Request>)
        ensures
            final(self)@ == (SentryView { request, ..old(self)@ }),
    {
        self.request = request;
    }

    pub fn push_trace_context(&mut self, trace_context: TraceContext)
        ensures
            final(self)@ == (SentryView {
                trace_contexts: old(self)@.trace_contexts.push(trace_context),
                ..old(self)@
            }),
    {
        self.trace_context.push(trace_context);
    }

    /// Leaves the innermost trace context; does nothing where there is
    /// none.
    pub fn pop_trace_context(&mut self)
        ensures
            final(self)@ == (SentryView {
                trace_contexts: if old(self)@.trace_contexts.len() > 0 {
                    old(self)@.trace_contexts.drop_last()
                } else {
                    old(self)@.trace_contexts
                },
                ..old(self)@
            }),
    {
        let _ = self.trace_context.pop();
        assert(final(self)@.trace_contexts =~= if old(self)@.trace_contexts.len() > 0 {
            old(self)@.trace_contexts.drop_last()
        } else {
            old(self)@.trace_contexts
        });
    }

    /// Adds a span to the open transaction; does nothing where none is
    /// open.
    pub fn add_span(&mut self, span: Span)
        ensures
            final(self)@ == (SentryView {
                transaction: match old(self)@.transaction {
                    Some((transaction, trace)) => Some(
                        (
                            TransactionView {
                                spans: transaction.spans.push(span),
                                ..transaction
                            },
                            trace,
                        ),
                    ),
                    None => None,
                },
                ..old(self)@
            }),
    {
        match self.transaction.take() {
            Some((transaction, trace)) => {
                let mut transaction = transaction;
                transaction.spans.push(span);
                self.transaction = Some((transaction, trace));
            },
            None => {},
        }
    }

    pub fn add_breadcrumb(&mut self, breadcrumb: Breadcrumb)
        ensures
            final(self)@ == (SentryView {
                breadcrumbs: old(self)@.breadcrumbs.push(breadcrumb),
                ..old(self)@
            }),
    {
        self.breadcrumbs.push(breadcrumb);
    }

    /// Opens a transaction in the trace of the client, as the span
    /// `span_id`. A transaction that was open is given up for it.
    pub fn start_transaction(&mut self, ctx: TransactionContext, span_id: SpanId)
        ensures
            final(self)@ == (SentryView {
                transaction: Some(
                    (
                        TransactionView { name: Some(ctx.name), spans: Seq::empty() },
                        transaction_trace(old(self)@.trace_id, span_id, ctx.op),
                    ),
                ),
                ..old(self)@
            }),
    {
        let transaction = Transaction { name: Some(ctx.name), spans: Vec::new() };
        let trace_context = TraceContext {
            span_id,
            trace_id: self.trace_id,
            parent_span_id: None,
            op: Some(ctx.op),
            description: None,
            status: None,
        };
        self.transaction = Some((transaction, trace_context));
    }

    /// Notes how the open transaction ended; does nothing where none is
    /// open.
    pub fn update_transaction(&mut self, status: SpanStatus)
        ensures
            final(self)@ == (SentryView {
                transaction: match old(self)@.transaction {
                    Some((transaction, trace)) => Some(
                        (transaction, TraceContext { status: Some(status), ..trace }),
                    ),
                    None => None,
                },
                ..old(self)@
            }),
    {
        match self.transaction.take() {
            Some((transaction, trace)) => {
                let mut trace = trace;
                trace.status = Some(status);
                self.transaction = Some((transaction, trace));
            },
            None => {},
        }
    }

    /// Closes the open transaction and hands it out with its trace context,
    /// to be sent; gives nothing where none is open.
    pub fn finish_transaction(&mut self) -> (out: Option<(Transaction, TraceContext)>)
        ensures
            final(self)@ == (SentryView { transaction: None, ..old(self)@ }),
            match out {
                Some((transaction, trace)) => old(self)@.transaction == Some((transaction@, trace)),
                None => old(self)@.transaction is None,
            },
    {
        self.transaction.take()
    }

    /// What a report is sent with, as things stand.
    pub fn capture_event(&self) -> (out: EventContext<'_>)
        ensures
            out.holds(self@),
    {
        let server_name = match &self.request {
            Some(request) => match &request.url {
                Some(url) => url_host(url.as_str()),
                None => None,
            },
            None => None,
        };
        let transaction: Option<&str> = match &self.transaction {
            Some(open) => match &open.0.name {
                Some(name) => Some(name.as_str()),
                None => None,
            },
            None => None,
        };
        let trace: Option<&TraceContext> = if self.trace_context.len() > 0 {
            Some(&self.trace_context[self.trace_context.len() - 1])
        } else {
            match &self.transaction {
                Some(open) => Some(&open.1),
                None => None,
            }
        };
        EventContext {
            transaction,
            breadcrumbs: self.breadcrumbs.as_slice(),
            server_name,
            request: self.request.as_ref(),
            user: self.user.as_ref(),
            trace,
        }
    }

    /// Decides whether an error is reported: one of the level `Debug` is
    /// not; any other is, with what `capture_event` gives.
    pub fn capture_err_level(&self, message: String, level: Level) -> (out: Option<Capture<'_>>)
        ensures
            match out {
                Some(capture) => level != Level::Debug && capture.message == message
                    && capture.level == level && capture.context.holds(self@),
                None => level == Level::Debug,
            },
    {
        self.do_capture_err(message, level)
    }

    /// As `capture_err_level`, for an error that brings its own level.
    pub fn capture_err(&self, message: String, level: Level) -> (out: Option<Capture<'_>>)
        ensures
            match out {
                Some(capture) => level != Level::Debug && capture.message == message
                    && capture.level == level && capture.context.holds(self@),
                None => level == Level::Debug,
            },
    {
        self.do_capture_err(message, level)
    }

    fn do_capture_err(&self, message: String, level: Level) -> (out: Option<Capture<'_>>)
        ensures
            match out {
                Some(capture) => level != Level::Debug && capture.message == message
                    && capture.level == level && capture.context.holds(self@),
                None => level == Level::Debug,
            },
    {
        if !level.is_captured() {
            return None;
        }
        Some(Capture { message, level, context: self.capture_event() })
    }

    /// The value of the header that admits an envelope.
    pub fn auth_header(&self) -> (out: String)
        ensures
            out@ == "Sentry sentry_version=7, sentry_client=pobb.in/1.0, sentry_key="@
                + self@.token,
    {
        let mut out = "Sentry sentry_version=7, sentry_client=pobb.in/1.0, sentry_key=".to_owned();
        out.append(self.token.as_str());
        out
    }

    /// Where envelopes are sent.
    pub fn envelope_url(&self) -> (out: String)
        ensures
            out@ == "https://sentry.io/api/"@ + self@.project + "/envelope/"@,
    {
        let mut out = "https://sentry.io/api/".to_owned();
        out.append(self.project.as_str());
        out.append("/envelope/");
        out
    }
}

impl<'a> EventContext<'a> {
    /// The context holds what the client has gathered.
    pub open spec fn holds(self, client: SentryView) -> bool {
        &&& match self.transaction {
            Some(name) => client.transaction_name() == Some(name@),
            None => client.transaction_name() is None,
        }
        &&& self.breadcrumbs@ == client.breadcrumbs
        &&& opt_text(self.server_name) == client.server_name()
        &&& match self.request {
            Some(request) => client.request == Some(*request),
            None => client.request is None,
        }
        &&& match self.user {
            Some(user) => client.user == Some(*user),
            None => client.user is None,
        }
        &&& match self.trace {
            Some(trace) => client.current_trace() == Some(*trace),
            None => client.current_trace() is None,
        }
    }
}

} // verus!
