//! The wire format of error reports: levels, identifiers and the envelope
//! that frames serialized events.

use vstd::prelude::*;
use vstd::utf8::encode_utf8;
use crate::text::{decimal, push_decimal};
use crate::utils::{hex_lower, hex_lower_text};

verus! {

/// How severe a report is.
#[derive(Debug, Copy, Clone, PartialEq, Eq, Hash, Structural)]
pub enum Level {
    /// Very spammy debug information.
    Debug,
    /// Informational messages.
    Info,
    /// A warning.
    Warning,
    /// An error.
    Error,
    /// An error that usually ends the program.
    Fatal,
}

impl Default for Level {
    fn default() -> (out: Self)
        ensures
            out == Level::Info,
    {
        Level::Info
    }
}

impl Level {
    /// The level as it is written into a report.
    pub open spec fn text(self) -> Seq<char> {
        match self {
            Level::Debug => "debug"@,
            Level::Info => "info"@,
            Level::Warning => "warning"@,
            Level::Error => "error"@,
            Level::Fatal => "fatal"@,
        }
    }

    pub fn to_str(&self) -> (out: &'static str)
        ensures
            out@ == self.text(),
    {
        match self {
            Level::Debug => "debug",
            Level::Info => "info",
            Level::Warning => "warning",
            Level::Error => "error",
            Level::Fatal => "fatal",
        }
    }

    pub fn to_string(&self) -> (out: String)
        ensures
            out@ == self.text(),
    {
        self.to_str().to_owned()
    }

    /// Whether an error of this level is reported at all: all but `Debug`
    /// are.
    pub fn is_captured(&self) -> (out: bool)
        ensures
            out == (*self != Level::Debug),
    {
        match self {
            Level::Debug => false,
            _ => true,
        }
    }
}

/// How a span of work ended.
#[derive(Debug, Copy, Clone, PartialEq, Eq, Hash, Structural)]
pub enum SpanStatus {
    Okay,
    DeadlineExceeded,
    Unauthenticated,
    PermissionDenied,
    NotFound,
    ResourceExhausted,
    InvalidArgument,
    Unimplemented,
    Unavailable,
    InternalError,
    UnknownError,
    Cancelled,
    AlreadyExists,
    FailedPrecondition,
    Aborted,
    OutOfRange,
    DataLoss,
}

impl SpanStatus {
    /// The status as it is written into a report.
    pub open spec fn text(self) -> Seq<char> {
        match self {
            SpanStatus::Okay => "ok"@,
            SpanStatus::DeadlineExceeded => "deadline_exceeded"@,
            SpanStatus::Unauthenticated => "unauthenticated"@,
            SpanStatus::PermissionDenied => "permission_denied"@,
            SpanStatus::NotFound => "not_found"@,
            SpanStatus::ResourceExhausted => "resource_exhausted"@,
            SpanStatus::InvalidArgument => "invalid_argument"@,
            SpanStatus::Unimplemented => "unimplemented"@,
            SpanStatus::Unavailable => "unavailable"@,
            SpanStatus::InternalError => "internal_error"@,
            SpanStatus::UnknownError => "unknown_error"@,
            SpanStatus::Cancelled => "cancelled"@,
            SpanStatus::AlreadyExists => "already_exists"@,
            SpanStatus::FailedPrecondition => "failed_precondition"@,
            SpanStatus::Aborted => "aborted"@,
            SpanStatus::OutOfRange => "out_of_range"@,
            SpanStatus::DataLoss => "data_loss"@,
        }
    }

    pub fn to_str(&self) -> (out: &'static str)
        ensures
            out@ == self.text(),
    {
        match self {
            SpanStatus::Okay => "ok",
            SpanStatus::DeadlineExceeded => "deadline_exceeded",
            SpanStatus::Unauthenticated => "unauthenticated",
            SpanStatus::PermissionDenied => "permission_denied",
            SpanStatus::NotFound => "not_found",
            SpanStatus::ResourceExhausted => "resource_exhausted",
            SpanStatus::InvalidArgument => "invalid_argument",
            SpanStatus::Unimplemented => "unimplemented",
            SpanStatus::Unavailable => "unavailable",
            SpanStatus::InternalError => "internal_error",
            SpanStatus::UnknownError => "unknown_error",
            SpanStatus::Cancelled => "cancelled",
            SpanStatus::AlreadyExists => "already_exists",
            SpanStatus::FailedPrecondition => "failed_precondition",
            SpanStatus::Aborted => "aborted",
            SpanStatus::OutOfRange => "out_of_range",
            SpanStatus::DataLoss => "data_loss",
        }
    }
}

/// The identifier of a span: eight bytes, written in hexadecimal.
#[derive(Copy, Clone, Debug, PartialEq, Eq, Hash)]
pub struct SpanId(pub [u8; 8]);

impl SpanId {
    pub fn to_string(&self) -> (out: String)
        ensures
            out@ == hex_lower_text(self.0@),
            out@.len() == 16,
    {
        hex_lower(self.0.as_slice())
    }
}

/// The identifier of a trace: sixteen bytes, written in hexadecimal.
#[derive(Copy, Clone, Debug, PartialEq, Eq, Hash)]
pub struct TraceId(pub [u8; 16]);

impl TraceId {
    pub fn to_string(&self) -> (out: String)
        ensures
            out@ == hex_lower_text(self.0@),
            out@.len() == 32,
    {
        hex_lower(self.0.as_slice())
    }
}

/// A point in time.
#[derive(Copy, Clone, Debug, PartialEq, Eq, Structural)]
pub struct Timestamp(pub u64);

impl Timestamp {
    pub fn from_secs(secs: u64) -> (out: Timestamp)
        ensures
            out.0 == secs,
    {
        Timestamp(secs)
    }
}

/// One error of a report.
#[derive(Debug)]
pub struct Exception {
    /// The type of the exception.
    pub ty: String,
    /// The value of the exception.
    pub value: Option<String>,
    /// The module of the exception.
    pub module: Option<String>,
}

/// The errors of a report, the innermost first.
#[derive(Debug)]
pub struct Exceptions {
    pub values: Vec<Exception>,
}

/// Where in a trace a report belongs.
#[derive(Debug)]
pub struct TraceContext {
    pub span_id: SpanId,
    pub trace_id: TraceId,
    pub parent_span_id: Option<SpanId>,
    pub op: Option<String>,
    pub description: Option<String>,
    pub status: Option<SpanStatus>,
}

/// A span of work inside a transaction.
#[derive(Debug)]
pub struct Span {
    pub span_id: SpanId,
    pub trace_id: TraceId,
    pub parent_span_id: Option<SpanId>,
    pub same_process_as_parent: Option<bool>,
    /// A short code for the kind of work.
    pub op: Option<String>,
    pub description: Option<String>,
    /// When the work ended.
    pub timestamp: Option<Timestamp>,
    /// When the work started.
    pub start_timestamp: Timestamp,
    pub status: Option<SpanStatus>,
    pub tags: Vec<(String, String)>,
    /// Names and values, the values as JSON.
    pub data: Vec<(String, String)>,
}

/// What an item of an envelope holds.
#[derive(Debug, Copy, Clone, PartialEq, Eq, Structural)]
pub enum ItemKind {
    Event,
    Transaction,
}

impl ItemKind {
    /// The kind as the header of an item names it.
    pub open spec fn text(self) -> Seq<char> {
        match self {
            ItemKind::Event => "event"@,
            ItemKind::Transaction => "transaction"@,
        }
    }

    pub fn to_str(&self) -> (out: &'static str)
        ensures
            out@ == self.text(),
    {
        match self {
            ItemKind::Event => "event",
            ItemKind::Transaction => "transaction",
        }
    }
}

/// An event or a transaction, serialized, with the id it carries.
#[derive(Debug)]
pub struct EnvelopeItem {
    pub kind: ItemKind,
    /// The id of the event, as text.
    pub event_id: String,
    /// The item as JSON.
    pub payload: Vec<u8>,
}

/// An item as values.
pub struct ItemView {
    pub kind: ItemKind,
    pub event_id: Seq<char>,
    pub payload: Seq<u8>,
}

impl View for EnvelopeItem {
    type V = ItemView;

    open spec fn view(&self) -> ItemView {
        ItemView { kind: self.kind, event_id: self.event_id@, payload: self.payload@ }
    }
}

/// The first line of an envelope: the id of its first item, or nothing.
pub open spec fn envelope_header(event_id: Option<Seq<char>>) -> Seq<u8> {
    match event_id {
        Some(id) => encode_utf8("{\"event_id\":\""@) + encode_utf8(id) + encode_utf8("\"}\n"@),
        None => encode_utf8("{}\n"@),
    }
}

/// An item on the wire: a line with its kind and the length of its payload,
/// then the payload and a line feed.
pub open spec fn item_frame(item: ItemView) -> Seq<u8> {
    encode_utf8("{\"type\":\""@) + encode_utf8(item.kind.text()) + encode_utf8(
        "\",\"length\":"@,
    ) + encode_utf8(decimal(item.payload.len())) + encode_utf8("}\n"@) + item.payload
        + encode_utf8("\n"@)
}

/// The items of an envelope on the wire, one after the other.
pub open spec fn item_frames(items: Seq<ItemView>) -> Seq<u8>
    decreases items.len(),
{
    if items.len() == 0 {
        Seq::empty()
    } else {
        item_frames(items.drop_last()) + item_frame(items.last())
    }
}

/// A list of items as values.
pub open spec fn items_view(items: Seq<EnvelopeItem>) -> Seq<ItemView> {
    Seq::new(items.len(), |i: int| items[i]@)
}

fn push_text(out: &mut Vec<u8>, s: &str)
    ensures
        final(out)@ == old(out)@ + encode_utf8(s@),
{
    let bytes = s.as_bytes();
    let ghost start = out@;
    let mut i: usize = 0;
    while i < bytes.len()
        invariant
            i <= bytes.len(),
            bytes@ == encode_utf8(s@),
            out@ == start + bytes@.take(i as int),
        decreases bytes.len() - i,
    {
        out.push(bytes[i]);
        assert(out@ =~= start + bytes@.take(i as int + 1));
        i += 1;
    }
    assert(bytes@.take(bytes.len() as int) == bytes@);
}

fn push_bytes(out: &mut Vec<u8>, bytes: &Vec<u8>)
    ensures
        final(out)@ == old(out)@ + bytes@,
{
    let ghost start = out@;
    let mut i: usize = 0;
    while i < bytes.len()
        invariant
            i <= bytes.len(),
            out@ == start + bytes@.take(i as int),
        decreases bytes.len() - i,
    {
        out.push(bytes[i]);
        assert(out@ =~= start + bytes@.take(i as int + 1));
        i += 1;
    }
    assert(bytes@.take(bytes.len() as int) == bytes@);
}

/// A report on its way: serialized items under the id of the first.
#[derive(Debug)]
pub struct Envelope {
    event_id: Option<String>,
    items: Vec<EnvelopeItem>,
}

impl Envelope {
    /// The id that the envelope goes under.
    pub closed spec fn event_id(&self) -> Option<Seq<char>> {
        match self.event_id {
            Some(id) => Some(id@),
            None => None,
        }
    }

    /// The items of the envelope, in the order in which they were added.
    pub closed spec fn items(&self) -> Seq<ItemView> {
        items_view(self.items@)
    }

    /// An envelope without items.
    pub fn new() -> (out: Self)
        ensures
            out.event_id() is None,
            out.items() == Seq::<ItemView>::empty(),
    {
        let out = Envelope { event_id: None, items: Vec::new() };
        assert(out.items() =~= Seq::<ItemView>::empty());
        out
    }

    /// An envelope with one item.
    pub fn from(item: EnvelopeItem) -> (out: Self)
        ensures
            out.event_id() == Some(item.event_id@),
            out.items() == seq![item@],
    {
        let mut out = Envelope::new();
        out.add_item(item);
        assert(out.items() =~= seq![item@]);
        out
    }

    /// Adds an item. The first item gives the envelope its id.
    pub fn add_item(&mut self, item: EnvelopeItem)
        ensures
            final(self).items() == old(self).items().push(item@),
            final(self).event_id() == match old(self).event_id() {
                Some(id) => Some(id),
                None => Some(item.event_id@),
            },
    {
        if self.event_id.is_none() {
            self.event_id = Some(item.event_id.clone());
        }
        let ghost held = self.items@;
        self.items.push(item);
        assert(items_view(self.items@) =~= items_view(held).push(item@));
    }

    /// Writes the envelope as it goes over the wire.
    pub fn to_writer(&self, writer: &mut Vec<u8>)
        ensures
            final(writer)@ == old(writer)@ + envelope_header(self.event_id()) + item_frames(
                self.items(),
            ),
    {
        let bytes = self.to_bytes();
        push_bytes(writer, &bytes);
        assert(final(writer)@ =~= old(writer)@ + envelope_header(self.event_id()) + item_frames(
            self.items(),
        ));
    }

    /// The envelope as it goes over the wire.
    pub fn to_bytes(&self) -> (out: Vec<u8>)
        ensures
            out@ == envelope_header(self.event_id()) + item_frames(self.items()),
    {
        let mut out: Vec<u8> = Vec::new();
        match &self.event_id {
            Some(id) => {
                push_text(&mut out, "{\"event_id\":\"");
                push_text(&mut out, id.as_str());
                push_text(&mut out, "\"}\n");
            },
            None => {
                push_text(&mut out, "{}\n");
            },
        }
        assert(out@ =~= envelope_header(self.event_id()));
        let mut i: usize = 0;
        while i < self.items.len()
            invariant
                i <= self.items.len(),
                out@ == envelope_header(self.event_id()) + item_frames(
                    self.items().take(i as int),
                ),
            decreases self.items.len() - i,
        {
            let item = &self.items[i];
            let ghost before = out@;
            let mut length = String::new();
            push_decimal(&mut length, item.payload.len() as u64);
            push_text(&mut out, "{\"type\":\"");
            push_text(&mut out, item.kind.to_str());
            push_text(&mut out, "\",\"length\":");
            push_text(&mut out, length.as_str());
            push_text(&mut out, "}\n");
            push_bytes(&mut out, &item.payload);
            push_text(&mut out, "\n");
            proof {
                let now = self.items().take(i as int + 1);
                assert(now.drop_last() == self.items().take(i as int));
                assert(now.last() == item@);
                assert(out@ =~= before + item_frame(item@));
            }
            i += 1;
        }
        assert(self.items().take(self.items.len() as int) == self.items());
        out
    }
}

} // verus!
