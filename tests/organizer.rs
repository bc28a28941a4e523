use arma_stats::json::IdField;
use arma_stats::organizer::{command, Command, MissionRequest, Organizer, Step};
use arma_stats::queue::{EventQueue, Next, QueueItem};
use arma_stats::relay::{Delivery, Relay, RelayAction, Verdict};
use arma_stats::wire::split_command;

fn reply(text: &str) -> Step {
    Step::Reply(Some(text.to_string()))
}

/// Registers a mission, answering the registration as a backend would.
fn register(o: &mut Organizer, q: &mut EventQueue, backend_reply: &str) -> String {
    match o.call("mission", r#"{"type": "empty"}"#.to_string(), q) {
        Step::Register(_) => o.finish_mission(Some(backend_reply.to_string())),
        Step::Reply(Some(r)) => r,
        other => panic!("unexpected step {:?}", other),
    }
}

/// Runs the relay until it stops, answering each post with `answer` and
/// recording every destination posted to.
fn drain(q: &mut EventQueue, answer: impl Fn(usize) -> Delivery) -> (Vec<QueueItem>, Vec<Verdict>) {
    let mut relay = Relay::new();
    let mut posts = Vec::new();
    let mut verdicts = Vec::new();
    loop {
        match relay.next(q) {
            RelayAction::Post(item) => loop {
                let outcome = answer(posts.len());
                posts.push(item.duplicate());
                let verdict = relay.report(outcome);
                verdicts.push(verdict);
                if verdict != Verdict::Retry {
                    break;
                }
            },
            RelayAction::Wait => panic!("the queue was closed"),
            RelayAction::Stop => break,
        }
    }
    (posts, verdicts)
}

#[test]
fn setup() {
    let mut o = Organizer::new();
    let mut q = EventQueue::new();
    let host = "http://localhost:8080";
    o.call("setup", host.to_string(), &mut q);
    assert_eq!(host, o.endpoint().unwrap());
}

#[test]
fn mission() {
    let mut o = Organizer::new();
    let mut q = EventQueue::new();
    o.call("setup", "http://".to_string() + "127.0.0.1:4000", &mut q);
    let step = o.call("mission", r#"{"type": "empty"}"#.to_string(), &mut q);
    assert_eq!(
        step,
        Step::Register(MissionRequest {
            url: "http://127.0.0.1:4000/missions".to_string(),
            body: r#"{"type": "empty"}"#.to_string(),
        })
    );
    let res = o.finish_mission(Some(r#"{"id": 1}"#.to_string()));

    assert_eq!("OK", res);
    assert_eq!(1, o.mission_id());
}

#[test]
fn events() {
    let mut o = Organizer::new();
    let mut q = EventQueue::new();
    o.call("setup", format!("http://{}", "127.0.0.1:4000"), &mut q);
    assert_eq!("OK", register(&mut o, &mut q, r#"{"id": 1}"#));
    assert_eq!(reply("OK"), o.call("event", r#"{"foo": "bar"}"#.to_string(), &mut q));
    assert_eq!(reply("OK"), o.call("event", r#"{"foo": "bar"}"#.to_string(), &mut q));

    q.close();
    let (posts, _) = drain(&mut q, |_| Delivery::Delivered);
    let to_events = posts
        .iter()
        .filter(|p| p.destination.ends_with("/missions/1/events"))
        .count();
    assert_eq!(2, to_events);
}

#[test]
fn function_echo() {
    let (name, data) = split_command("echo;foobar").unwrap();
    let mut o = Organizer::new();
    let mut q = EventQueue::new();
    assert_eq!(reply("foobar"), o.call(&name, data, &mut q));
}

#[test]
fn function_panic() {
    let (name, data) = split_command("panic;").unwrap();
    let mut o = Organizer::new();
    let mut q = EventQueue::new();
    assert_eq!(Step::Fault, o.call(&name, data, &mut q));
}

#[test]
fn fault_then_echo_still_answers() {
    let mut o = Organizer::new();
    let mut q = EventQueue::new();
    o.call("setup", "http://h".to_string(), &mut q);
    assert_eq!(Step::Fault, o.call("panic", String::new(), &mut q));
    assert_eq!(reply("x"), o.call("echo", "x".to_string(), &mut q));
    assert_eq!(Some("http://h".to_string()), o.endpoint());
    assert_eq!(0, q.len());
}

#[test]
fn unknown_command_gives_no_result() {
    let mut o = Organizer::new();
    let mut q = EventQueue::new();
    assert_eq!(Command::Unknown, command("launch"));
    assert_eq!(Command::Unknown, command("Echo"));
    assert_eq!(Step::Reply(None), o.call("launch", "x".to_string(), &mut q));
    assert_eq!(Step::Reply(None), o.call("setup", "http://h".to_string(), &mut q));
}

#[test]
fn setup_twice_is_setup_once() {
    let mut once = Organizer::new();
    let mut twice = Organizer::new();
    let mut q = EventQueue::new();
    once.call("setup", "http://a".to_string(), &mut q);
    twice.call("setup", "http://a".to_string(), &mut q);
    twice.call("setup", "http://a".to_string(), &mut q);
    assert_eq!(once.endpoint(), twice.endpoint());
    assert_eq!(once.mission_id(), twice.mission_id());
}

#[test]
fn setup_replaces_endpoint() {
    let mut o = Organizer::new();
    let mut q = EventQueue::new();
    assert_eq!(None, o.endpoint());
    o.call("setup", "http://a".to_string(), &mut q);
    o.call("setup", "not a url".to_string(), &mut q);
    assert_eq!(Some("not a url".to_string()), o.endpoint());
}

#[test]
fn mission_checks_before_posting() {
    let mut o = Organizer::new();
    let mut q = EventQueue::new();
    assert_eq!(reply("-1"), o.call("mission", r#"{"type": "empty"}"#.to_string(), &mut q));
    o.call("setup", "http://h".to_string(), &mut q);
    assert_eq!(reply("-1"), o.call("mission", "{not json".to_string(), &mut q));
    assert!(matches!(o.call("mission", "[1, 2]".to_string(), &mut q), Step::Register(_)));
}

#[test]
fn mission_reply_forms() {
    let mut o = Organizer::new();
    assert_eq!("OK", o.finish_mission(Some(r#"{"id": "42"}"#.to_string())));
    assert_eq!(42, o.mission_id());
    assert_eq!("OK", o.finish_mission(Some(r#"{"id": -3}"#.to_string())));
    assert_eq!(-3, o.mission_id());
    for bad in [
        r#"{"id": "4x"}"#,
        r#"{"id": 1.5}"#,
        r#"{"id": null}"#,
        r#"{"name": 1}"#,
        r#"[{"id": 1}]"#,
        "{",
        "",
    ] {
        assert_eq!("-1", o.finish_mission(Some(bad.to_string())), "{}", bad);
        assert_eq!(-3, o.mission_id());
    }
    assert_eq!("-1", o.finish_mission(None));
    assert_eq!(-3, o.mission_id());
}

#[test]
fn malformed_mission_reply_keeps_mission() {
    let mut o = Organizer::new();
    let mut q = EventQueue::new();
    o.call("setup", "http://h".to_string(), &mut q);
    assert_eq!("OK", register(&mut o, &mut q, r#"{"id": 1}"#));
    assert_eq!("-1", register(&mut o, &mut q, "<html>oops</html>"));
    assert_eq!(1, o.mission_id());
}

#[test]
fn apply_mission_id_forms() {
    let mut o = Organizer::new();
    assert_eq!("OK", o.apply_mission_id(IdField::Integer(7)));
    assert_eq!(7, o.mission_id());
    assert_eq!("OK", o.apply_mission_id(IdField::Text("+8".to_string())));
    assert_eq!(8, o.mission_id());
    assert_eq!("-1", o.apply_mission_id(IdField::Text("eight".to_string())));
    assert_eq!("-1", o.apply_mission_id(IdField::Unusable));
    assert_eq!(8, o.mission_id());
}

#[test]
fn event_needs_an_endpoint() {
    let mut o = Organizer::new();
    let mut q = EventQueue::new();
    assert_eq!(reply("ERROR"), o.call("event", r#"{"a": 1}"#.to_string(), &mut q));
    assert_eq!(0, q.len());
    o.call("setup", "http://h".to_string(), &mut q);
    assert_eq!(reply("OK"), o.call("event", r#"{"a": 1}"#.to_string(), &mut q));
    assert_eq!(1, q.len());
}

#[test]
fn event_before_registration_targets_mission_zero() {
    let mut o = Organizer::new();
    let mut q = EventQueue::new();
    o.call("setup", "http://h".to_string(), &mut q);
    o.call("event", "{}".to_string(), &mut q);
    match q.take() {
        Next::Item(item) => assert_eq!("http://h/missions/0/events", item.destination),
        _ => panic!("nothing queued"),
    }
}

#[test]
fn event_rejects_what_is_not_an_object() {
    let mut o = Organizer::new();
    let mut q = EventQueue::new();
    o.call("setup", "http://h".to_string(), &mut q);
    for bad in ["[1, 2]", "\"text\"", "3", "null", "not json", "", "{\"a\": "] {
        assert_eq!(reply("ERROR"), o.call("event", bad.to_string(), &mut q), "{}", bad);
    }
    assert_eq!(0, q.len());
}

#[test]
fn event_is_stamped_and_serialised() {
    let mut o = Organizer::new();
    let mut q = EventQueue::new();
    o.call("setup", "http://h".to_string(), &mut q);
    o.call("event", r#"{"foo": "bar", "timestamp": "old"}"#.to_string(), &mut q);
    let item = match q.take() {
        Next::Item(item) => item,
        _ => panic!("nothing queued"),
    };
    assert!(item.payload.contains(r#""foo":"bar""#), "{}", item.payload);
    assert!(item.payload.contains(r#""timestamp":""#), "{}", item.payload);
    assert!(!item.payload.contains("old"), "{}", item.payload);
    assert!(item.payload.contains("T"), "{}", item.payload);
    assert_ne!(r#"{"foo": "bar", "timestamp": "old"}"#, item.payload);
}

#[test]
fn event_after_release_is_refused() {
    let mut o = Organizer::new();
    let mut q = EventQueue::new();
    o.call("setup", "http://h".to_string(), &mut q);
    q.close();
    assert!(!q.accepts());
    assert_eq!(reply("ERROR"), o.call("event", "{}".to_string(), &mut q));
    assert_eq!(0, q.len());
}

#[test]
fn events_leave_in_order() {
    let mut o = Organizer::new();
    let mut q = EventQueue::new();
    o.call("setup", "http://h".to_string(), &mut q);
    o.call("event", r#"{"n": "A"}"#.to_string(), &mut q);
    o.call("event", r#"{"n": "B"}"#.to_string(), &mut q);
    q.close();
    let (posts, _) = drain(&mut q, |_| Delivery::Delivered);
    assert_eq!(2, posts.len());
    assert!(posts[0].payload.contains(r#""n":"A""#));
    assert!(posts[1].payload.contains(r#""n":"B""#));
}

#[test]
fn queue_hands_out_then_finishes() {
    let mut q = EventQueue::new();
    assert_eq!(Next::Empty, q.take());
    let a = QueueItem { destination: "d".to_string(), payload: "1".to_string() };
    assert!(q.push(a.duplicate()));
    q.close();
    assert!(!q.push(QueueItem { destination: "d".to_string(), payload: "2".to_string() }));
    assert_eq!(Next::Item(a), q.take());
    assert_eq!(Next::Finished, q.take());
}

#[test]
fn stale_connection_is_retried_once() {
    let mut q = EventQueue::new();
    q.push(QueueItem { destination: "d".to_string(), payload: "1".to_string() });
    q.push(QueueItem { destination: "d".to_string(), payload: "2".to_string() });
    q.close();
    // first item: stale, then stale again; second item: stale, then delivered
    let (posts, verdicts) = drain(&mut q, |n| if n == 3 { Delivery::Delivered } else { Delivery::StaleConnection });
    assert_eq!(4, posts.len());
    assert_eq!(
        vec![Verdict::Retry, Verdict::Dropped, Verdict::Retry, Verdict::Delivered],
        verdicts
    );
    assert_eq!("1", posts[1].payload);
    assert_eq!("2", posts[2].payload);
}

#[test]
fn other_failures_are_dropped() {
    let mut q = EventQueue::new();
    q.push(QueueItem { destination: "d".to_string(), payload: "1".to_string() });
    q.push(QueueItem { destination: "d".to_string(), payload: "2".to_string() });
    q.close();
    let (posts, verdicts) = drain(&mut q, |_| Delivery::Failed);
    assert_eq!(2, posts.len());
    assert_eq!(vec![Verdict::Dropped, Verdict::Dropped], verdicts);
}

#[test]
fn relay_waits_while_open() {
    let mut q = EventQueue::new();
    let mut relay = Relay::new();
    assert_eq!(RelayAction::Wait, relay.next(&mut q));
    q.close();
    assert_eq!(RelayAction::Stop, relay.next(&mut q));
}

#[test]
fn event_at_stores_the_given_time() {
    let mut o = Organizer::new();
    let mut q = EventQueue::new();
    o.call("setup", "http://h".to_string(), &mut q);
    let time = "2020-01-02T03:04:05+00:00".to_string();
    assert_eq!("OK", o.event_at(r#"{"foo": "bar", "n": 3, "timestamp": 1}"#.to_string(), time, &mut q));
    let item = match q.take() {
        Next::Item(item) => item,
        _ => panic!("nothing queued"),
    };
    assert_eq!("http://h/missions/0/events", item.destination);
    assert!(item.payload.contains(r#""foo":"bar""#), "{}", item.payload);
    assert!(item.payload.contains(r#""n":3"#), "{}", item.payload);
    assert!(item.payload.contains(r#""timestamp":"2020-01-02T03:04:05+00:00""#), "{}", item.payload);
    assert!(!item.payload.contains(r#""timestamp":1"#), "{}", item.payload);
    assert_eq!("ERROR", o.event_at("[1]".to_string(), "t".to_string(), &mut q));
    assert_eq!(0, q.len());
}
