use paperplane::client::{
    Ignored, JoinStreams, OneshotResponder, Polled, Reaction, RequestData, RequestDataToStream,
};
use paperplane::ident::{correlation_text, parse_correlation};
use paperplane::json::Document;
use std::sync::{Arc, Mutex};
use std::task::{Wake, Waker};

struct Count(Mutex<usize>);

impl Wake for Count {
    fn wake(self: Arc<Self>) {
        *self.0.lock().unwrap() += 1;
    }
}

fn counting_waker() -> (Arc<Count>, Waker) {
    let count = Arc::new(Count(Mutex::new(0)));
    (count.clone(), Waker::from(count))
}

fn woken(count: &Arc<Count>) -> usize {
    *count.0.lock().unwrap()
}

fn document(text: &str) -> Document {
    Document::parse(text).expect("the text is JSON")
}

fn request<C>(cell: C, text: &str) -> RequestDataToStream<C> {
    RequestDataToStream::new(cell, document(text)).expect("the request is an object")
}

fn forwarded<C>(reaction: Reaction<C>) -> (String, bool) {
    match reaction {
        Reaction::Forward { text, overwritten } => (text, overwritten),
        other => panic!("not forwarded: {}", name(&other)),
    }
}

fn name<C>(reaction: &Reaction<C>) -> &'static str {
    match reaction {
        Reaction::Forward { .. } => "Forward",
        Reaction::Collision(_) => "Collision",
        Reaction::Update(_) => "Update",
        Reaction::Resolve { .. } => "Resolve",
        Reaction::Ignore(_) => "Ignore",
    }
}

fn resolved<C>(reaction: Reaction<C>) -> (C, Document) {
    match reaction {
        Reaction::Resolve { data, resp } => (data, resp),
        other => panic!("not resolved: {}", name(&other)),
    }
}

fn ignored<C>(reaction: Reaction<C>) -> Ignored {
    match reaction {
        Reaction::Ignore(reason) => reason,
        other => panic!("not ignored: {}", name(&other)),
    }
}

fn reply_to(id: u128, label: &str) -> String {
    format!("{{\"@type\":\"ok\",\"@extra\":\"{}\",\"label\":\"{}\"}}", correlation_text(id), label)
}

#[test]
fn new_cell_is_pending() {
    let mut cell = RequestData::new();
    let (count, waker) = counting_waker();
    assert!(matches!(cell.poll(waker), Polled::Pending));
    assert_eq!(woken(&count), 0);
}

#[test]
fn resolve_wakes_the_stored_waker_once() {
    let mut cell = RequestData::new();
    let (count, waker) = counting_waker();
    assert!(matches!(cell.poll(waker), Polled::Pending));
    assert!(cell.resolve(document("{\"@type\":\"ok\"}")));
    assert_eq!(woken(&count), 1);
    let (later, waker) = counting_waker();
    match cell.poll(waker) {
        Polled::Ready(resp) => assert_eq!(resp.to_text(), "{\"@type\":\"ok\"}"),
        Polled::Pending => panic!("the response is there"),
    }
    assert_eq!(woken(&count), 1);
    assert_eq!(woken(&later), 0);
}

#[test]
fn only_the_latest_poller_is_woken() {
    let mut cell = RequestData::new();
    let (first, waker) = counting_waker();
    assert!(matches!(cell.poll(waker), Polled::Pending));
    let (second, waker) = counting_waker();
    assert!(matches!(cell.poll(waker), Polled::Pending));
    assert!(cell.resolve(document("{}")));
    assert_eq!(woken(&first), 0);
    assert_eq!(woken(&second), 1);
}

#[test]
fn resolve_without_a_waker_wakes_nobody() {
    let mut cell = RequestData::new();
    assert!(!cell.resolve(document("{\"n\":1}")));
    let (count, waker) = counting_waker();
    match cell.poll(waker) {
        Polled::Ready(resp) => assert_eq!(resp.to_text(), "{\"n\":1}"),
        Polled::Pending => panic!("the response is there"),
    }
    assert_eq!(woken(&count), 0);
}

#[test]
fn every_poll_of_a_resolved_cell_is_ready() {
    let mut cell = RequestData::new();
    cell.resolve(document("{\"@type\":\"user\",\"id\":5}"));
    for _ in 0..3 {
        let (_, waker) = counting_waker();
        match cell.poll(waker) {
            Polled::Ready(resp) => assert_eq!(resp.to_text(), "{\"@type\":\"user\",\"id\":5}"),
            Polled::Pending => panic!("the response is there"),
        }
    }
}

#[test]
fn response_of_another_shape_is_ready_and_fails_to_decode() {
    let mut cell = RequestData::new();
    let (count, waker) = counting_waker();
    assert!(matches!(cell.poll(waker), Polled::Pending));
    cell.resolve(document("{\"@type\":\"error\",\"code\":404,\"message\":\"Not Found\"}"));
    assert_eq!(woken(&count), 1);
    let (_, waker) = counting_waker();
    match cell.poll(waker) {
        Polled::Ready(resp) => {
            assert_eq!(resp.type_tag(), Some("error"));
            let decoded: Result<Vec<u32>, serde_json::Error> =
                serde_json::from_value(resp.into_value());
            assert!(decoded.is_err());
        }
        Polled::Pending => panic!("the response is there"),
    }
}

#[test]
fn request_must_be_an_object() {
    assert!(RequestDataToStream::new(1u32, document("{}")).is_some());
    assert!(RequestDataToStream::new(1u32, document("{\"@type\":\"getMe\"}")).is_some());
    assert!(RequestDataToStream::new(1u32, document("[]")).is_none());
    assert!(RequestDataToStream::new(1u32, document("null")).is_none());
    assert!(RequestDataToStream::new(1u32, document("\"getMe\"")).is_none());
    assert!(JoinStreams::request(1u32, document("{}")).is_some());
    assert!(JoinStreams::request(1u32, document("7")).is_none());
}

#[test]
fn request_comes_apart_as_it_was_made() {
    let (cell, doc) = request(9u32, "{\"@type\":\"getMe\",\"n\":[1]}").into_parts();
    assert_eq!(cell, 9);
    assert_eq!(doc.to_text(), "{\"@type\":\"getMe\",\"n\":[1]}");
}

#[test]
fn received_forwards_messages_and_skips_timeouts() {
    match JoinStreams::<u32>::received(Some("{\"@type\":\"ok\"}".to_string())) {
        Some(JoinStreams::NewResponse(text)) => assert_eq!(text, "{\"@type\":\"ok\"}"),
        _ => panic!("a message is an event"),
    }
    match JoinStreams::<u32>::received(Some(String::new())) {
        Some(JoinStreams::NewResponse(text)) => assert_eq!(text, ""),
        _ => panic!("a message is an event"),
    }
    assert!(JoinStreams::<u32>::received(None).is_none());
}

#[test]
fn new_responder_has_nothing_pending() {
    let responder: OneshotResponder<u32> = OneshotResponder::new();
    assert_eq!(responder.pending_count(), 0);
    assert!(!responder.is_pending(0));
    assert!(!responder.is_pending(u128::MAX));
}

#[test]
fn register_forwards_the_request_with_its_identifier() {
    let mut responder = OneshotResponder::new();
    let (text, overwritten) = forwarded(responder.register(1, request(7u32, "{\"@type\":\"getMe\"}")));
    assert_eq!(text, "{\"@extra\":\"00000000-0000-0000-0000-000000000001\",\"@type\":\"getMe\"}");
    assert!(!overwritten);
    assert!(responder.is_pending(1));
    assert_eq!(responder.pending_count(), 1);
}

#[test]
fn register_overwrites_a_correlation_member() {
    let mut responder = OneshotResponder::new();
    let id = 0x67e55044_10b1_426f_9247_bb680e5fe0c8u128;
    let (text, overwritten) =
        forwarded(responder.register(id, request(7u32, "{\"@extra\":\"mine\",\"@type\":\"getMe\"}")));
    assert_eq!(text, "{\"@extra\":\"67e55044-10b1-426f-9247-bb680e5fe0c8\",\"@type\":\"getMe\"}");
    assert!(overwritten);
    let (_, overwritten) =
        forwarded(responder.register(2, request(8u32, "{\"@extra\":17,\"@type\":\"getMe\"}")));
    assert!(overwritten);
    let (_, overwritten) =
        forwarded(responder.register(3, request(9u32, "{\"@extra\":null,\"@type\":\"getMe\"}")));
    assert!(!overwritten);
}

#[test]
fn register_hands_back_a_request_whose_identifier_is_taken() {
    let mut responder = OneshotResponder::new();
    forwarded(responder.register(5, request(1u32, "{\"@type\":\"getMe\"}")));
    match responder.register(5, request(2u32, "{\"@type\":\"close\"}")) {
        Reaction::Collision(back) => {
            let (cell, doc) = back.into_parts();
            assert_eq!(cell, 2);
            assert_eq!(doc.to_text(), "{\"@type\":\"close\"}");
        }
        other => panic!("not a collision: {}", name(&other)),
    }
    assert_eq!(responder.pending_count(), 1);
    let (cell, _) = resolved(responder.handle_message(&reply_to(5, "a")));
    assert_eq!(cell, 1);
}

#[test]
fn response_resolves_the_cell_and_leaves_the_map() {
    let mut responder = OneshotResponder::new();
    forwarded(responder.register(11, request("first", "{\"@type\":\"getMe\"}")));
    forwarded(responder.register(12, request("second", "{\"@type\":\"getMe\"}")));
    let (cell, resp) = resolved(responder.handle_response(document(&reply_to(12, "b"))));
    assert_eq!(cell, "second");
    assert_eq!(resp.string("label"), Some("b"));
    assert!(!responder.is_pending(12));
    assert!(responder.is_pending(11));
    assert_eq!(responder.pending_count(), 1);
}

#[test]
fn second_response_under_one_identifier_is_dropped() {
    let mut responder = OneshotResponder::new();
    forwarded(responder.register(11, request(1u32, "{\"@type\":\"getMe\"}")));
    resolved(responder.handle_message(&reply_to(11, "a")));
    assert_eq!(ignored(responder.handle_message(&reply_to(11, "a"))), Ignored::UnknownId(11));
    assert_eq!(responder.pending_count(), 0);
}

#[test]
fn response_without_an_identifier_is_dropped() {
    let mut responder = OneshotResponder::new();
    forwarded(responder.register(11, request(1u32, "{\"@type\":\"getMe\"}")));
    for text in ["{\"@type\":\"ok\"}", "{\"@type\":\"ok\",\"@extra\":5}", "{\"@extra\":null}", "[]", "1", "{}"] {
        assert_eq!(ignored(responder.handle_message(text)), Ignored::NoCorrelation);
    }
    for text in ["{\"@type\":\"ok\",\"@extra\":\"mine\"}", "{\"@extra\":\"\"}"] {
        assert_eq!(ignored(responder.handle_message(text)), Ignored::BadCorrelation);
    }
    assert_eq!(responder.pending_count(), 1);
    assert!(responder.is_pending(11));
}

#[test]
fn handle_response_does_not_look_at_the_discriminator() {
    let mut responder = OneshotResponder::new();
    forwarded(responder.register(3, request(1u32, "{\"@type\":\"getMe\"}")));
    let text = format!("{{\"@type\":\"updateUser\",\"@extra\":\"{}\"}}", correlation_text(3));
    let (cell, _) = resolved(responder.handle_response(document(&text)));
    assert_eq!(cell, 1);
}

#[test]
fn distinct_identifiers_and_each_response_to_its_request() {
    let mut responder = OneshotResponder::new();
    let mut sent = Vec::new();
    for n in 0..200usize {
        let mut submitted = request(n, &format!("{{\"@type\":\"testCallString\",\"x\":\"{}\"}}", n));
        loop {
            match responder.handle_request(submitted) {
                Reaction::Forward { text, overwritten } => {
                    assert!(!overwritten);
                    sent.push(text);
                    break;
                }
                Reaction::Collision(back) => submitted = back,
                other => panic!("a request is forwarded: {}", name(&other)),
            }
        }
    }
    assert_eq!(responder.pending_count(), 200);
    let mut ids = Vec::new();
    let mut echoes = Vec::new();
    for text in &sent {
        let doc = document(text);
        let extra = doc.string("@extra").expect("the identifier was put in").to_string();
        let id = parse_correlation(&extra).expect("the identifier reads back");
        assert_eq!(correlation_text(id), extra);
        assert!(responder.is_pending(id));
        ids.push(id);
        let x = doc.string("x").expect("the payload stays").to_string();
        echoes.push(format!("{{\"@type\":\"testString\",\"@extra\":\"{}\",\"value\":\"{}\"}}", extra, x));
    }
    let mut sorted = ids.clone();
    sorted.sort();
    sorted.dedup();
    assert_eq!(sorted.len(), 200);
    for (n, echo) in echoes.iter().enumerate() {
        let (cell, resp) = resolved(responder.handle_message(echo));
        assert_eq!(cell, n);
        assert_eq!(resp.string("value"), Some(n.to_string().as_str()));
    }
    assert_eq!(responder.pending_count(), 0);
}

#[test]
fn responses_in_reverse_order_reach_their_own_requests() {
    let mut responder = OneshotResponder::new();
    let cells: Vec<Arc<Mutex<RequestData>>> =
        (0..5).map(|_| Arc::new(Mutex::new(RequestData::new()))).collect();
    let mut counts = Vec::new();
    for (n, cell) in cells.iter().enumerate() {
        let (count, waker) = counting_waker();
        assert!(matches!(cell.lock().unwrap().poll(waker), Polled::Pending));
        counts.push(count);
        forwarded(responder.register(100 + n as u128, request(cell.clone(), "{\"@type\":\"getMe\"}")));
    }
    for n in (0..5usize).rev() {
        let (cell, resp) = resolved(responder.handle_message(&reply_to(100 + n as u128, &n.to_string())));
        assert!(Arc::ptr_eq(&cell, &cells[n]));
        assert!(cell.lock().unwrap().resolve(resp));
        assert_eq!(woken(&counts[n]), 1);
        for earlier in 0..n {
            assert_eq!(woken(&counts[earlier]), 0);
        }
    }
    for (n, cell) in cells.iter().enumerate() {
        let (_, waker) = counting_waker();
        match cell.lock().unwrap().poll(waker) {
            Polled::Ready(resp) => assert_eq!(resp.string("label"), Some(n.to_string().as_str())),
            Polled::Pending => panic!("the response is there"),
        }
        assert_eq!(woken(&counts[n]), 1);
    }
    assert_eq!(responder.pending_count(), 0);
}

#[test]
fn updates_go_to_the_handler_and_nowhere_else() {
    let mut responder = OneshotResponder::new();
    forwarded(responder.register(1, request(1u32, "{\"@type\":\"getMe\"}")));
    let update = format!(
        "{{\"@type\":\"updateOption\",\"@extra\":\"{}\",\"name\":\"version\"}}",
        correlation_text(1)
    );
    match responder.handle_message(&update) {
        Reaction::Update(doc) => {
            assert_eq!(doc.type_tag(), Some("updateOption"));
            assert_eq!(doc.string("name"), Some("version"));
        }
        other => panic!("an update goes to the handler: {}", name(&other)),
    }
    assert!(responder.is_pending(1));
    assert_eq!(responder.pending_count(), 1);
    match responder.handle_document(document("{\"@type\":\"updateUser\"}")) {
        Reaction::Update(doc) => assert_eq!(doc.to_text(), "{\"@type\":\"updateUser\"}"),
        other => panic!("an update goes to the handler: {}", name(&other)),
    }
    let (cell, _) = resolved(responder.handle_message(&reply_to(1, "a")));
    assert_eq!(cell, 1);
}

#[test]
fn response_with_a_known_identifier_is_no_update() {
    let mut responder = OneshotResponder::new();
    forwarded(responder.register(1, request(1u32, "{\"@type\":\"getMe\"}")));
    for tag in ["ok", "user", "Update", "anUpdate", "updat"] {
        forwarded(responder.register(2, request(2u32, "{\"@type\":\"getMe\"}")));
        let text = format!("{{\"@type\":\"{}\",\"@extra\":\"{}\"}}", tag, correlation_text(2));
        let reaction = responder.handle_message(&text);
        assert_eq!(name(&reaction), "Resolve");
    }
    let text = format!("{{\"@extra\":\"{}\"}}", correlation_text(1));
    assert_eq!(name(&responder.handle_message(&text)), "Resolve");
}

#[test]
fn unknown_identifier_does_not_disturb_pending_requests() {
    let mut responder = OneshotResponder::new();
    forwarded(responder.register(1, request("one", "{\"@type\":\"getMe\"}")));
    forwarded(responder.register(2, request("two", "{\"@type\":\"getMe\"}")));
    assert_eq!(ignored(responder.handle_message(&reply_to(3, "c"))), Ignored::UnknownId(3));
    assert_eq!(responder.pending_count(), 2);
    let (cell, resp) = resolved(responder.handle_message(&reply_to(2, "b")));
    assert_eq!(cell, "two");
    assert_eq!(resp.string("label"), Some("b"));
    let (cell, resp) = resolved(responder.handle_message(&reply_to(1, "a")));
    assert_eq!(cell, "one");
    assert_eq!(resp.string("label"), Some("a"));
}

#[test]
fn malformed_message_does_not_disturb_pending_requests() {
    let mut responder = OneshotResponder::new();
    forwarded(responder.register(1, request("one", "{\"@type\":\"getMe\"}")));
    for text in ["", "not json", "{\"@type\":", "{\"@extra\": \"x\"} {", "\u{0}"] {
        assert_eq!(ignored(responder.handle_message(text)), Ignored::Malformed);
        assert_eq!(ignored(responder.step(JoinStreams::NewResponse(text.to_string()))), Ignored::Malformed);
    }
    assert_eq!(responder.pending_count(), 1);
    let (cell, resp) = resolved(responder.handle_message(&reply_to(1, "a")));
    assert_eq!(cell, "one");
    assert_eq!(resp.string("label"), Some("a"));
}

#[test]
fn response_for_a_dropped_future_is_stored_all_the_same() {
    let mut responder = OneshotResponder::new();
    let cell = Arc::new(Mutex::new(RequestData::new()));
    forwarded(responder.register(1, request(cell.clone(), "{\"@type\":\"getMe\"}")));
    drop(cell);
    let (orphan, resp) = resolved(responder.handle_message(&reply_to(1, "a")));
    assert_eq!(Arc::strong_count(&orphan), 1);
    assert!(!orphan.lock().unwrap().resolve(resp));
    assert_eq!(responder.pending_count(), 0);
    forwarded(responder.register(2, request(Arc::new(Mutex::new(RequestData::new())), "{}")));
    assert_eq!(name(&responder.handle_message(&reply_to(2, "b"))), "Resolve");
}

#[test]
fn step_handles_both_kinds_of_event() {
    let mut responder = OneshotResponder::new();
    let event = JoinStreams::request(4u32, document("{\"@type\":\"getMe\"}")).expect("an object");
    let (text, overwritten) = forwarded(responder.step(event));
    assert!(!overwritten);
    let sent = document(&text);
    assert_eq!(sent.type_tag(), Some("getMe"));
    let id = sent.correlation().expect("the identifier was put in");
    assert!(responder.is_pending(id));
    let version = sent.string("@extra").unwrap().chars().nth(14);
    assert_eq!(version, Some('4'));
    let event = JoinStreams::received(Some(reply_to(id, "a"))).expect("a message");
    let (cell, resp) = resolved(responder.step(event));
    assert_eq!(cell, 4);
    assert_eq!(resp.string("label"), Some("a"));
    assert!(!responder.is_pending(id));
}
