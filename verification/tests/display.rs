//! Rendering helpers: timestamps, user agents, decimal text, identifier
//! text, and the profile listing.

use basic_site::api::server_time;
use basic_site::ids::{id_text, parse_id};
use basic_site::models::user::User;
use basic_site::store::Db;
use basic_site::text::u64_to_string;
use basic_site::util::current_time_micros;
use basic_site::web::profile::{format_timestamp, profile, truncate_user_agent};
use basic_site::web::signup::{post as signup, FormPayload};

const T0: i64 = 1_700_000_000_000_000;

#[test]
fn u64_to_string_renders_decimal() {
    assert_eq!(u64_to_string(0), "0");
    assert_eq!(u64_to_string(7), "7");
    assert_eq!(u64_to_string(10), "10");
    assert_eq!(u64_to_string(1234567890), "1234567890");
    assert_eq!(u64_to_string(u64::MAX), "18446744073709551615");
}

#[test]
fn format_timestamp_covers_every_branch() {
    let now = 90_061_000_000 + 1_000_000; // 1 day, 1 hour, 1 minute, 1 second past 1 s
    assert_eq!(format_timestamp(0, now), "Invalid timestamp");
    assert_eq!(format_timestamp(-5, now), "Invalid timestamp");
    assert_eq!(format_timestamp(1_000_000, now), "1 days ago");
    assert_eq!(format_timestamp(now - 7_200_000_000, now), "2 hours ago");
    assert_eq!(format_timestamp(now - 180_000_000, now), "3 minutes ago");
    assert_eq!(format_timestamp(now - 59_000_000, now), "Just now");
    assert_eq!(format_timestamp(now, now), "Just now");
    assert_eq!(format_timestamp(now + 10_000_000, now), "Future: 90072");
}

#[test]
fn truncate_user_agent_shortens_long_strings() {
    let short = "Mozilla/5.0";
    assert_eq!(truncate_user_agent(short), short);

    let fifty = "a".repeat(50);
    assert_eq!(truncate_user_agent(&fifty), fifty);

    let long = "a".repeat(51);
    let mut expected = "a".repeat(47);
    expected.push_str("...");
    assert_eq!(truncate_user_agent(&long), expected);
}

#[test]
fn id_text_round_trips_through_parse() {
    let v = 0x550e8400_e29b_41d4_a716_446655440000u128;
    let text = id_text(v);
    assert_eq!(text, "550e8400-e29b-41d4-a716-446655440000");
    assert_eq!(parse_id(&text), Some(v));
    assert_eq!(parse_id("550e8400e29b41d4a716446655440000"), Some(v));
    assert_eq!(parse_id(""), None);
    assert_eq!(parse_id("zz0e8400-e29b-41d4-a716-446655440000"), None);
}

#[test]
fn profile_lists_live_sessions_as_displays() {
    let mut db = Db::new();
    let form = FormPayload {
        username: "alice".to_owned(),
        password: "Secr3tPass".to_owned(),
    };
    let (_, first) = signup(
        &mut db,
        &form,
        T0,
        "1.2.3.4".to_owned(),
        "UA/1".to_owned(),
    )
    .expect("signup failed");
    let alice = User::get_by_username(&db, "alice").expect("get failed");
    let agent = "x".repeat(60);
    let second = basic_site::session::login(
        &mut db,
        "alice",
        "Secr3tPass",
        T0 + 30_000_000,
        "9.8.7.6".to_owned(),
        agent.clone(),
    )
    .expect("login failed");

    let rows = profile(&db, &alice, T0 + 40_000_000);
    assert_eq!(rows.len(), 2);
    assert_eq!(rows[0].id, id_text(first.id));
    assert_eq!(rows[1].id, id_text(second.id));
    assert_eq!(rows[0].ip_address, "1.2.3.4");
    assert_eq!(rows[1].ip_address, "9.8.7.6");
    let mut expected_agent = "x".repeat(47);
    expected_agent.push_str("...");
    assert_eq!(rows[1].user_agent, expected_agent);
    assert_eq!(rows[0].created_at, "Just now");
    assert!(!rows[0].is_current && !rows[1].is_current);

    // Once both sessions are expired the listing is empty.
    let later = T0 + 604_800_000_000 + 31_000_000;
    assert_eq!(profile(&db, &alice, later).len(), 0);
}

#[test]
fn session_cookie_carries_attributes() {
    let v = 0x550e8400_e29b_41d4_a716_446655440000u128;
    let secure = basic_site::session::build_session_cookie(v, true);
    assert_eq!(
        secure,
        "session_id=550e8400-e29b-41d4-a716-446655440000; Path=/; SameSite=Strict; HttpOnly; Secure; Max-Age=604800"
    );
    let local = basic_site::session::build_session_cookie(v, false);
    assert_eq!(
        local,
        "session_id=550e8400-e29b-41d4-a716-446655440000; Path=/; SameSite=Strict; HttpOnly; Max-Age=604800"
    );
}

#[test]
fn server_time_reports_a_nonnegative_clock() {
    let response = server_time::get();
    assert!(response.timestamp >= 0);
    assert!(current_time_micros() >= 0);
}
