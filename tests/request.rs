use chrono::{DateTime, Utc};
use serde_json::Value;
use tariff_schema::error::{Field, FormatError};
use tariff_schema::instant::Timestamp;
use tariff_schema::request::{
    DebugWire, Gift, PrivateTariffWire, PublicTariffWire, Request, RequestType, RequestWire,
    StreamWire,
};
use tariff_schema::span::Span;
use url::Url;
use uuid::Uuid;

const FIXTURE: &str = r#"{
  "type": "success",
  "stream": {
    "user_id": "8d234120-0bda-49b2-b7e0-fbd3912f6cbf",
    "is_private": false,
    "settings": 45345,
    "shard_url": "https://n3.example.com/sapi",
    "public_tariff": {"id": 1, "price": 100, "duration": "1h", "description": "test public tariff"},
    "private_tariff": {"client_price": 250, "duration": "1m", "description": "test private tariff"}
  },
  "gifts": [
    {"id": 1, "price": 2, "description": "Gift 1"},
    {"id": 2, "price": 3, "description": "Gift 2"}
  ],
  "debug": {"duration": "234ms", "at": "2019-06-28T08:35:46+00:00"}
}"#;

fn text(v: &Value) -> String {
    v.as_str().unwrap().to_string()
}

fn number(v: &Value) -> u32 {
    v.as_u64().unwrap() as u32
}

fn wire_of(json: &str) -> RequestWire {
    let v: Value = serde_json::from_str(json).unwrap();
    let s = &v["stream"];
    let pt = &s["public_tariff"];
    let pr = &s["private_tariff"];
    let gifts = v["gifts"]
        .as_array()
        .unwrap()
        .iter()
        .map(|g| Gift { id: number(&g["id"]), price: number(&g["price"]), description: text(&g["description"]) })
        .collect();
    RequestWire {
        request_type: text(&v["type"]),
        stream: StreamWire {
            user_id: text(&s["user_id"]),
            is_private: s["is_private"].as_bool().unwrap(),
            settings: number(&s["settings"]),
            shard_url: text(&s["shard_url"]),
            public_tariff: PublicTariffWire {
                id: number(&pt["id"]),
                price: number(&pt["price"]),
                duration: text(&pt["duration"]),
                description: text(&pt["description"]),
            },
            private_tariff: PrivateTariffWire {
                client_price: number(&pr["client_price"]),
                duration: text(&pr["duration"]),
                description: text(&pr["description"]),
            },
        },
        gifts,
        debug: DebugWire { duration: text(&v["debug"]["duration"]), at: text(&v["debug"]["at"]) },
    }
}

fn fixture_request() -> Request {
    Request::from_wire(wire_of(FIXTURE)).unwrap()
}

#[test]
fn test_1() {
    let request = fixture_request();
    assert_eq!(request.request_type, RequestType::Success);
    assert_eq!(
        request.stream.user_id,
        Uuid::parse_str("8d234120-0bda-49b2-b7e0-fbd3912f6cbf").unwrap().as_u128()
    );
    assert_eq!(request.stream.is_private, false);
    assert_eq!(request.stream.settings, 45345);
    assert_eq!(request.stream.shard_url, Url::parse("https://n3.example.com/sapi").unwrap().as_str());
    assert_eq!(request.stream.public_tariff.id, 1);
    assert_eq!(request.stream.public_tariff.price, 100);
    assert_eq!(request.stream.public_tariff.duration, Span::from_secs(3600));
    assert_eq!(request.stream.public_tariff.description, "test public tariff");
    assert_eq!(request.stream.private_tariff.client_price, 250);
    assert_eq!(request.stream.private_tariff.duration, Span::from_secs(60));
    assert_eq!(request.stream.private_tariff.description, "test private tariff");
    assert_eq!(request.gifts.len(), 2);
    assert_eq!(request.gifts[0].id, 1);
    assert_eq!(request.gifts[0].price, 2);
    assert_eq!(request.gifts[0].description, "Gift 1");
    assert_eq!(request.gifts[1].id, 2);
    assert_eq!(request.gifts[1].price, 3);
    assert_eq!(request.gifts[1].description, "Gift 2");
    assert_eq!(request.debug.duration, Span::from_millis(234));
    let expected_at: DateTime<Utc> = "2019-06-28T08:35:46+00:00".parse().unwrap();
    assert_eq!(request.debug.at.secs, expected_at.timestamp());
    assert_eq!(request.debug.at.nanos, expected_at.timestamp_subsec_nanos());
}

#[test]
fn fixture_renders_in_compact_notation() {
    let wire = fixture_request().to_wire();
    assert_eq!(wire.request_type, "success");
    assert_eq!(wire.stream.user_id, "8d234120-0bda-49b2-b7e0-fbd3912f6cbf");
    assert_eq!(wire.stream.shard_url, "https://n3.example.com/sapi");
    assert_eq!(wire.stream.public_tariff.duration, "1h");
    assert_eq!(wire.stream.private_tariff.duration, "1m");
    assert_eq!(wire.debug.duration, "234ms");
    assert_eq!(wire.debug.at, "2019-06-28T08:35:46Z");
}

#[test]
fn fixture_round_trips() {
    let first = fixture_request();
    let again = Request::from_wire(first.to_wire()).unwrap();
    assert_eq!(again.request_type, first.request_type);
    assert_eq!(again.stream.user_id, first.stream.user_id);
    assert_eq!(again.stream.is_private, first.stream.is_private);
    assert_eq!(again.stream.settings, first.stream.settings);
    assert_eq!(again.stream.shard_url, first.stream.shard_url);
    assert_eq!(again.stream.public_tariff.duration, first.stream.public_tariff.duration);
    assert_eq!(again.stream.public_tariff.description, first.stream.public_tariff.description);
    assert_eq!(again.stream.private_tariff.duration, first.stream.private_tariff.duration);
    assert_eq!(again.stream.private_tariff.client_price, first.stream.private_tariff.client_price);
    assert_eq!(again.gifts.len(), first.gifts.len());
    assert_eq!(again.gifts[1].description, first.gifts[1].description);
    assert_eq!(again.debug, first.debug);
}

#[test]
fn failure_type_round_trips() {
    let mut wire = wire_of(FIXTURE);
    wire.request_type = "failure".to_string();
    let request = Request::from_wire(wire).unwrap();
    assert_eq!(request.request_type, RequestType::Failure);
    assert_eq!(request.to_wire().request_type, "failure");
}

#[test]
fn unknown_type_is_rejected() {
    let mut wire = wire_of(FIXTURE);
    wire.request_type = "Success".to_string();
    assert_eq!(Request::from_wire(wire).unwrap_err(), FormatError { field: Field::RequestType });
}

#[test]
fn malformed_user_id_is_rejected() {
    let mut wire = wire_of(FIXTURE);
    wire.stream.user_id = "8d234120-0bda-49b2-b7e0".to_string();
    let err = Request::from_wire(wire).unwrap_err();
    assert_eq!(err.field, Field::UserId);
    assert_eq!(err.field.path(), "stream.user_id");
}

#[test]
fn malformed_shard_url_is_rejected() {
    let mut wire = wire_of(FIXTURE);
    wire.stream.shard_url = "n3.example.com/sapi".to_string();
    let err = Request::from_wire(wire).unwrap_err();
    assert_eq!(err.field, Field::ShardUrl);
    assert_eq!(err.field.path(), "stream.shard_url");
}

#[test]
fn malformed_durations_are_rejected() {
    let mut wire = wire_of(FIXTURE);
    wire.stream.public_tariff.duration = "one hour".to_string();
    assert_eq!(Request::from_wire(wire).unwrap_err().field, Field::PublicTariffDuration);
    let mut wire = wire_of(FIXTURE);
    wire.stream.private_tariff.duration = "1 fortnight".to_string();
    assert_eq!(Request::from_wire(wire).unwrap_err().field, Field::PrivateTariffDuration);
    let mut wire = wire_of(FIXTURE);
    wire.debug.duration = "".to_string();
    assert_eq!(Request::from_wire(wire).unwrap_err().field, Field::DebugDuration);
}

#[test]
fn malformed_timestamp_is_rejected() {
    let mut wire = wire_of(FIXTURE);
    wire.debug.at = "2019-06-28 08:35".to_string();
    let err = Request::from_wire(wire).unwrap_err();
    assert_eq!(err.field, Field::DebugAt);
    assert_eq!(err.field.path(), "debug.at");
}

#[test]
fn first_bad_field_is_named() {
    let mut wire = wire_of(FIXTURE);
    wire.request_type = "ok".to_string();
    wire.stream.user_id = "x".to_string();
    assert_eq!(Request::from_wire(wire).unwrap_err().field, Field::RequestType);
}

#[test]
fn normalised_shard_url_is_kept() {
    let mut wire = wire_of(FIXTURE);
    wire.stream.shard_url = "HTTPS://N3.Example.com".to_string();
    let request = Request::from_wire(wire).unwrap();
    assert_eq!(request.stream.shard_url, "https://n3.example.com/");
}

#[test]
fn upper_case_user_id_is_read() {
    let mut wire = wire_of(FIXTURE);
    wire.stream.user_id = "8D234120-0BDA-49B2-B7E0-FBD3912F6CBF".to_string();
    let request = Request::from_wire(wire).unwrap();
    assert_eq!(request.stream.user_id, 0x8d234120_0bda_49b2_b7e0_fbd3912f6cbf_u128);
    assert_eq!(request.to_wire().stream.user_id, "8d234120-0bda-49b2-b7e0-fbd3912f6cbf");
}

#[test]
fn offset_timestamp_is_held_in_utc() {
    let at = Timestamp::from_text("2019-06-28T10:35:46+02:00").unwrap();
    assert_eq!(at, Timestamp::from_text("2019-06-28T08:35:46Z").unwrap());
    assert_eq!(at.secs, 1_561_710_946);
    assert_eq!(at.to_text(), "2019-06-28T08:35:46Z");
}

#[test]
fn fractional_timestamp_round_trips() {
    let at = Timestamp::from_text("2019-06-28T08:35:46.250+00:00").unwrap();
    assert_eq!(at.nanos, 250_000_000);
    assert_eq!(at.to_text(), "2019-06-28T08:35:46.250Z");
    assert_eq!(Timestamp::from_text(&at.to_text()), Some(at));
}

#[test]
fn request_type_literals() {
    assert_eq!(RequestType::Success.tag(), "success");
    assert_eq!(RequestType::Failure.tag(), "failure");
    assert_eq!(RequestType::from_tag(&"failure".to_string()), Some(RequestType::Failure));
    assert_eq!(RequestType::from_tag(&"".to_string()), None);
}

#[test]
fn field_paths() {
    assert_eq!(Field::RequestType.path(), "type");
    assert_eq!(Field::PublicTariffDuration.path(), "stream.public_tariff.duration");
    assert_eq!(Field::PrivateTariffDuration.path(), "stream.private_tariff.duration");
    assert_eq!(Field::DebugDuration.path(), "debug.duration");
}
