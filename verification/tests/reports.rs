use pobbin::sentry::{
    Envelope, EnvelopeItem, ItemKind, Level, SpanId, SpanStatus, Timestamp, TraceId,
};

#[test]
fn levels() {
    assert_eq!(Level::default(), Level::Info);
    assert_eq!(Level::Debug.to_string(), "debug");
    assert_eq!(Level::Info.to_string(), "info");
    assert_eq!(Level::Warning.to_string(), "warning");
    assert_eq!(Level::Error.to_string(), "error");
    assert_eq!(Level::Fatal.to_str(), "fatal");
    assert!(!Level::Debug.is_captured());
    assert!(Level::Info.is_captured());
    assert!(Level::Fatal.is_captured());
}

#[test]
fn span_status_names() {
    assert_eq!(SpanStatus::Okay.to_str(), "ok");
    assert_eq!(SpanStatus::DeadlineExceeded.to_str(), "deadline_exceeded");
    assert_eq!(SpanStatus::NotFound.to_str(), "not_found");
    assert_eq!(SpanStatus::DataLoss.to_str(), "data_loss");
}

#[test]
fn ids_are_written_in_hex() {
    assert_eq!(SpanId([0, 1, 2, 3, 0xab, 0xcd, 0xef, 0xff]).to_string(), "00010203abcdefff");
    assert_eq!(
        TraceId([0x10; 16]).to_string(),
        "10101010101010101010101010101010"
    );
    assert_eq!(Timestamp::from_secs(5), Timestamp(5));
}

fn item(kind: ItemKind, id: &str, payload: &str) -> EnvelopeItem {
    EnvelopeItem {
        kind,
        event_id: id.to_string(),
        payload: payload.as_bytes().to_vec(),
    }
}

#[test]
fn empty_envelope() {
    assert_eq!(Envelope::new().to_bytes(), b"{}\n");
}

#[test]
fn envelope_frames_its_items() {
    let mut e = Envelope::from(item(ItemKind::Event, "22d00b3f-d1b1-4b5d-8d20-49d138cd8a9c", "{\"a\":1}"));
    e.add_item(item(ItemKind::Transaction, "other", "0123456789"));
    e.add_item(item(ItemKind::Event, "third", ""));
    let expected = "{\"event_id\":\"22d00b3f-d1b1-4b5d-8d20-49d138cd8a9c\"}\n\
                    {\"type\":\"event\",\"length\":7}\n\
                    {\"a\":1}\n\
                    {\"type\":\"transaction\",\"length\":10}\n\
                    0123456789\n\
                    {\"type\":\"event\",\"length\":0}\n\
                    \n";
    assert_eq!(String::from_utf8(e.to_bytes()).unwrap(), expected);
}

#[test]
fn envelope_is_written_behind_what_is_there() {
    let e = Envelope::from(item(ItemKind::Transaction, "id", "{}"));
    let mut out = b"> ".to_vec();
    e.to_writer(&mut out);
    assert_eq!(
        String::from_utf8(out).unwrap(),
        "> {\"event_id\":\"id\"}\n{\"type\":\"transaction\",\"length\":2}\n{}\n"
    );
}
