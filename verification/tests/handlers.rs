use greeter_service::response::{ContentType, Response, OK};
use greeter_service::routes::greet::greet;
use greeter_service::routes::hello::hello;
use greeter_service::routes::status::{frame_status, status, Status, REPORTED_UPTIME};
use greeter_service::routes::table::Endpoint;

#[test]
fn hello_returns_fixed_greeting() {
    let r = hello();
    assert_eq!(r.code, 200);
    assert_eq!(r.content_type, ContentType::Text);
    assert_eq!(r.body, "Hello, world!");
}

#[test]
fn hello_is_the_same_every_time() {
    assert_eq!(hello(), hello());
}

#[test]
fn greet_alice_contains_name() {
    let r = greet("Alice");
    assert_eq!(r.code, 200);
    assert!(r.body.contains("Alice"));
    assert_eq!(r.body, "Hello, Alice!");
    assert_eq!(r.content_type, ContentType::Text);
}

#[test]
fn greet_empty_name() {
    let r = greet("");
    assert_eq!(r.code, OK);
    assert_eq!(r.body, "Hello, !");
}

#[test]
fn greet_keeps_name_verbatim() {
    for name in ["a b", "<b>x</b>", "naïve", "日本語", "a/b", "\"q\"", "  ", "%41"] {
        let r = greet(name);
        assert_eq!(r.code, 200);
        assert_eq!(r.body, format!("Hello, {}!", name));
        assert_eq!(&r.body[7..7 + name.len()], name);
    }
}

#[test]
fn greet_accepts_long_name() {
    let name = "x".repeat(100_000);
    let r = greet(&name);
    assert_eq!(r.body.len(), name.len() + 8);
    assert!(r.body.contains(&name));
}

#[test]
fn status_returns_exact_json() {
    let r = status();
    assert_eq!(r.code, 200);
    assert_eq!(r.content_type, ContentType::Json);
    assert_eq!(r.body, "{\"status\":\"Running\",\"uptime\":3600}");
}

#[test]
fn status_is_idempotent() {
    let first = status();
    let second = status();
    let third = status();
    assert_eq!(first, second);
    assert_eq!(second, third);
}

#[test]
fn status_body_parses_as_json() {
    let r = status();
    let value: serde_json::Value = serde_json::from_str(&r.body).unwrap();
    assert_eq!(value["status"].as_str(), Some("Running"));
    assert_eq!(value["uptime"].as_u64(), Some(3600));
    assert_eq!(value.as_object().unwrap().len(), 2);
}

#[test]
fn running_report_has_fixed_fields() {
    let s = Status::running();
    assert_eq!(s.status, "Running");
    assert_eq!(s.uptime, 3600);
    assert_eq!(REPORTED_UPTIME, 3600);
}

#[test]
fn report_to_json_quotes_status() {
    let s = Status { status: "Running".to_string(), uptime: 3600 };
    assert_eq!(s.to_json(), "{\"status\":\"Running\",\"uptime\":3600}");
}

#[test]
fn report_to_json_escapes_status() {
    let s = Status { status: "a\"b\\c\nd".to_string(), uptime: 0 };
    assert_eq!(s.to_json(), "{\"status\":\"a\\\"b\\\\c\\nd\",\"uptime\":0}");
    let value: serde_json::Value = serde_json::from_str(&s.to_json()).unwrap();
    assert_eq!(value["status"].as_str(), Some("a\"b\\c\nd"));
}

#[test]
fn report_to_json_largest_uptime() {
    let s = Status { status: String::new(), uptime: u64::MAX };
    assert_eq!(s.to_json(), "{\"status\":\"\",\"uptime\":18446744073709551615}");
}

#[test]
fn frame_status_puts_members_in_order() {
    assert_eq!(frame_status("\"Up\"", 7), "{\"status\":\"Up\",\"uptime\":7}");
    assert_eq!(frame_status("", 10), "{\"status\":,\"uptime\":10}");
}

#[test]
fn table_lists_three_endpoints() {
    let all = Endpoint::all();
    assert_eq!(all, [Endpoint::Hello, Endpoint::Greet, Endpoint::Status]);
    let patterns: Vec<&str> = all.iter().map(|e| e.pattern()).collect();
    assert_eq!(patterns, vec!["/", "/greet/{name}", "/status"]);
}

#[test]
fn respond_runs_the_handler() {
    assert_eq!(Endpoint::Hello.respond(""), hello());
    assert_eq!(Endpoint::Greet.respond("Alice"), greet("Alice"));
    assert_eq!(Endpoint::Status.respond(""), status());
}

#[test]
fn respond_ignores_name_where_none_is_bound() {
    assert_eq!(Endpoint::Hello.respond("Alice"), Endpoint::Hello.respond("Bob"));
    assert_eq!(Endpoint::Status.respond("Alice"), Endpoint::Status.respond(""));
    assert_ne!(Endpoint::Greet.respond("Alice"), Endpoint::Greet.respond("Bob"));
}

#[test]
fn response_constructors_set_kind() {
    let t = Response::text("x".to_string());
    assert_eq!((t.code, t.content_type, t.body.as_str()), (200, ContentType::Text, "x"));
    let j = Response::json("{}".to_string());
    assert_eq!((j.code, j.content_type, j.body.as_str()), (200, ContentType::Json, "{}"));
}

#[test]
fn report_to_json_agrees_with_serde_json() {
    let cases = [("Running", 3600u64), ("", 0), ("Down \"hard\"", 1), ("tab\there", 99),
                 ("back\\slash", 18446744073709551615), ("späť ☃", 42), ("\u{1f}\u{0}", 7)];
    for (status, uptime) in cases {
        let mut members = serde_json::Map::new();
        members.insert("status".to_string(), serde_json::Value::from(status));
        members.insert("uptime".to_string(), serde_json::Value::from(uptime));
        let expected = serde_json::to_string(&serde_json::Value::Object(members)).unwrap();
        let report = Status { status: status.to_string(), uptime };
        assert_eq!(report.to_json(), expected);
    }
}
