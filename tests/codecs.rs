use tariff_schema::ident::{url_from_text, user_id_from_text, user_id_to_text};
use tariff_schema::instant::{Timestamp, FIRST_SEC, LAST_SEC};
use tariff_schema::request::{PrivateTariff, PublicTariff, Stream};
use tariff_schema::span::Span;

#[test]
fn leap_second_round_trips() {
    let at = Timestamp::from_text("2016-12-31T23:59:60Z").unwrap();
    assert!(at.nanos >= 1_000_000_000);
    assert_eq!(at.secs % 60, 59);
    assert_eq!(Timestamp::from_text(&at.to_text()), Some(at));
}

#[test]
fn year_bounds_round_trip() {
    let first = Timestamp::from_text("0000-01-01T00:00:00Z").unwrap();
    assert_eq!(first.secs, FIRST_SEC);
    assert_eq!(Timestamp::from_text(&first.to_text()), Some(first));
    let last = Timestamp::from_text("9999-12-31T23:59:59.999999999Z").unwrap();
    assert_eq!(last.secs, LAST_SEC);
    assert_eq!(Timestamp::from_text(&last.to_text()), Some(last));
}

#[test]
fn instants_outside_four_digit_years_are_refused() {
    assert_eq!(Timestamp::from_text("0000-01-01T00:30:00+01:00"), None);
    assert_eq!(Timestamp::from_text("9999-12-31T23:30:00-01:00"), None);
}

#[test]
fn timestamp_without_offset_is_refused() {
    assert_eq!(Timestamp::from_text("2019-06-28T08:35:46"), None);
    assert_eq!(Timestamp::from_text("yesterday"), None);
}

#[test]
fn url_normal_form_is_stable() {
    let t = url_from_text("http://Example.COM:80/a/../b/./c?q=1#f").unwrap();
    assert_eq!(t, "http://example.com/b/c?q=1#f");
    assert_eq!(url_from_text(&t), Some(t.clone()));
    assert_eq!(url_from_text("not a url"), None);
    assert_eq!(url_from_text(""), None);
}

#[test]
fn user_id_text_forms() {
    let v = user_id_from_text("{8d234120-0bda-49b2-b7e0-fbd3912f6cbf}").unwrap();
    assert_eq!(user_id_from_text("8d2341200bda49b2b7e0fbd3912f6cbf"), Some(v));
    assert_eq!(user_id_to_text(v), "8d234120-0bda-49b2-b7e0-fbd3912f6cbf");
    assert_eq!(user_id_to_text(0), "00000000-0000-0000-0000-000000000000");
    assert_eq!(user_id_from_text(&user_id_to_text(u128::MAX)), Some(u128::MAX));
    assert_eq!(user_id_from_text("8d234120-0bda-49b2-b7e0-fbd3912f6cbg"), None);
}

fn plans() -> (PublicTariff, PrivateTariff) {
    (
        PublicTariff { id: 1, price: 100, duration: Span::from_secs(3600), description: "p".to_string() },
        PrivateTariff { client_price: 250, duration: Span::from_secs(60), description: "q".to_string() },
    )
}

#[test]
fn stream_constructor_normalises_the_url() {
    let (p, q) = plans();
    let stream = Stream::new(7, true, 3, "HTTPS://N3.Example.com/sapi", p, q).unwrap();
    assert_eq!(stream.shard_url, "https://n3.example.com/sapi");
    assert_eq!(stream.user_id, 7);
    assert!(stream.is_private);
    let wire = stream.to_wire();
    assert_eq!(wire.user_id, "00000000-0000-0000-0000-000000000007");
    let back = Stream::from_wire(wire).unwrap();
    assert_eq!(back.shard_url, stream.shard_url);
    assert_eq!(back.public_tariff.duration, Span::from_secs(3600));
}

#[test]
fn stream_constructor_refuses_non_urls() {
    let (p, q) = plans();
    assert!(Stream::new(7, false, 3, "n3.example.com/sapi", p, q).is_none());
}
