use hue_bridge::api::Session;
use hue_bridge::error::ApiError;
use hue_bridge::json::{Json, Member};
use hue_bridge::menu::{light_snapshots, reachable_lights, LightSnapshot, MenuDelegate};
use hue_bridge::transport::{Method, Payload, Reply, Request};

fn text(value: &str) -> Json {
    Json::Str(value.to_string())
}

fn object(entries: Vec<(&str, Json)>) -> Json {
    Json::Object(entries.into_iter().map(|(key, value)| Member::new(key, value)).collect())
}

fn light(name: &str, bri: i64, reachable: bool) -> Json {
    object(vec![
        ("name", text(name)),
        ("state", object(vec![("bri", Json::Int(bri)), ("reachable", Json::Bool(reachable))])),
    ])
}

fn snapshot(id: &str, name: &str, bri: i64, reachable: bool) -> LightSnapshot {
    LightSnapshot { id: id.to_string(), name: name.to_string(), bri, reachable }
}

/// One millisecond, in the scheduler's unit.
const MS: u64 = 1_000_000;

fn paired() -> Session {
    Session::new(Some("bridge.local".to_string()), Some("abc123".to_string()))
}

fn invalid_listing() -> ApiError {
    ApiError::MalformedResponse { reason: "invalid light listing".to_string() }
}

#[test]
fn listing_yields_one_snapshot_per_light() {
    let listing = object(vec![("1", light("Lamp", 120, true))]);
    let lights = light_snapshots(&listing).unwrap();
    assert_eq!(lights, vec![snapshot("1", "Lamp", 120, true)]);
    assert_eq!(reachable_lights(lights), vec![snapshot("1", "Lamp", 120, true)]);
}

#[test]
fn unreachable_lights_are_excluded() {
    let listing = object(vec![
        ("1", light("Lamp", 120, true)),
        ("2", light("Hall", 30, false)),
        ("3", light("Desk", 254, true)),
    ]);
    let lights = light_snapshots(&listing).unwrap();
    assert_eq!(lights.len(), 3);
    assert_eq!(
        reachable_lights(lights),
        vec![snapshot("1", "Lamp", 120, true), snapshot("3", "Desk", 254, true)]
    );
    assert_eq!(reachable_lights(vec![snapshot("2", "Hall", 30, false)]), vec![]);
    assert_eq!(reachable_lights(vec![]), vec![]);
}

#[test]
fn listing_through_the_session_reaches_the_menu() {
    let session = paired();
    let mut menu = MenuDelegate::new();
    let request = menu.needs_update(&session);
    assert!(menu.is_loading());
    assert_eq!(
        request,
        Request {
            method: Method::Get,
            host: "bridge.local".to_string(),
            path: "/api/abc123/lights".to_string(),
            body: None,
        }
    );
    let body = object(vec![("1", light("Lamp", 120, true)), ("2", light("Hall", 9, false))]);
    let outcome = request.resolve(Reply::Answered { status: 200, payload: Payload::Decoded(body) });
    assert_eq!(menu.finish_update(outcome, 5_000), Ok(()));
    assert!(!menu.is_loading());
    let controls = menu.light_controllers();
    assert_eq!(controls.len(), 1);
    assert_eq!(controls[0].light_id(), "1");
    assert_eq!(controls[0].name(), "Lamp");
    assert_eq!(controls[0].bri(), 120);
    assert_eq!(controls[0].last_updated_bri(), 5_000);
}

#[test]
fn brightness_of_a_listed_light_is_brought_into_range() {
    let listing = object(vec![("1", light("Lamp", 255, true)), ("2", light("Hall", -3, true))]);
    assert_eq!(
        light_snapshots(&listing),
        Ok(vec![snapshot("1", "Lamp", 254, true), snapshot("2", "Hall", 0, true)])
    );
}

#[test]
fn unreachable_light_needs_no_brightness() {
    let entry = object(vec![
        ("name", text("Hall")),
        ("state", object(vec![("reachable", Json::Bool(false))])),
    ]);
    assert_eq!(
        LightSnapshot::parse(&"2".to_string(), &entry),
        Some(snapshot("2", "Hall", 0, false))
    );
    let reachable = object(vec![
        ("name", text("Hall")),
        ("state", object(vec![("reachable", Json::Bool(true))])),
    ]);
    assert_eq!(LightSnapshot::parse(&"2".to_string(), &reachable), None);
}

#[test]
fn malformed_entries_are_rejected() {
    let id = "1".to_string();
    assert_eq!(LightSnapshot::parse(&id, &Json::Null), None);
    assert_eq!(LightSnapshot::parse(&id, &object(vec![])), None);
    assert_eq!(
        LightSnapshot::parse(&id, &object(vec![("name", text("Lamp")), ("state", text("on"))])),
        None
    );
    assert_eq!(
        LightSnapshot::parse(
            &id,
            &object(vec![
                ("name", Json::Int(1)),
                ("state", object(vec![("bri", Json::Int(1)), ("reachable", Json::Bool(true))])),
            ])
        ),
        None
    );
    assert_eq!(
        LightSnapshot::parse(
            &id,
            &object(vec![
                ("name", text("Lamp")),
                ("state", object(vec![("bri", Json::Int(1)), ("reachable", Json::Int(1))])),
            ])
        ),
        None
    );
    assert_eq!(
        LightSnapshot::parse(
            &id,
            &object(vec![
                ("name", text("Lamp")),
                ("state", object(vec![("bri", text("1")), ("reachable", Json::Bool(true))])),
            ])
        ),
        None
    );
}

#[test]
fn malformed_listing_is_an_error_and_empties_the_menu() {
    assert_eq!(light_snapshots(&Json::Array(vec![])), Err(invalid_listing()));
    assert_eq!(light_snapshots(&Json::Null), Err(invalid_listing()));
    let broken = object(vec![("1", light("Lamp", 120, true)), ("2", text("Hall"))]);
    assert_eq!(light_snapshots(&broken), Err(invalid_listing()));

    let mut menu = MenuDelegate::new();
    assert_eq!(menu.update_lights(&object(vec![("1", light("Lamp", 120, true))]), 0), Ok(()));
    assert_eq!(menu.light_controllers().len(), 1);
    assert_eq!(menu.update_lights(&broken, 10), Err(invalid_listing()));
    assert_eq!(menu.light_controllers().len(), 0);
}

#[test]
fn empty_listing_gives_an_empty_menu() {
    let mut menu = MenuDelegate::new();
    assert_eq!(light_snapshots(&object(vec![])), Ok(vec![]));
    assert_eq!(menu.update_lights(&object(vec![]), 0), Ok(()));
    assert_eq!(menu.light_controllers().len(), 0);
}

#[test]
fn failed_listing_keeps_the_lights_and_stops_loading() {
    let session = paired();
    let mut menu = MenuDelegate::new();
    assert_eq!(menu.update_lights(&object(vec![("1", light("Lamp", 120, true))]), 0), Ok(()));
    let _ = menu.needs_update(&session);
    assert!(menu.is_loading());
    let failure = ApiError::Transport { message: "timed out".to_string() };
    assert_eq!(menu.finish_update(Err(failure.clone()), 99), Err(failure));
    assert!(!menu.is_loading());
    assert_eq!(menu.light_controllers().len(), 1);
    assert_eq!(menu.light_controllers()[0].last_updated_bri(), 0);
}

#[test]
fn loading_indicator_can_be_set() {
    let mut menu = MenuDelegate::new();
    assert!(!menu.is_loading());
    menu.set_loading(true);
    assert!(menu.is_loading());
    menu.set_loading(false);
    assert!(!menu.is_loading());
}

#[test]
fn drag_reaches_the_control_it_belongs_to() {
    let mut menu = MenuDelegate::new();
    let listing = object(vec![("1", light("Lamp", 120, true)), ("3", light("Desk", 50, true))]);
    assert_eq!(menu.update_lights(&listing, 1_000 * MS), Ok(()));
    assert!(!menu.drag_slider(1, 200, 1_050 * MS));
    assert!(menu.drag_slider(1, 210, 1_051 * MS));
    assert_eq!(menu.light_controllers()[0].bri(), 120);
    assert_eq!(menu.light_controllers()[0].last_updated_bri(), 1_000 * MS);
    assert_eq!(menu.light_controllers()[1].bri(), 210);
    assert_eq!(menu.light_controllers()[1].last_updated_bri(), 1_051 * MS);
}

#[test]
fn controls_are_found_by_their_light() {
    let mut menu = MenuDelegate::new();
    assert_eq!(menu.find_light("1"), None);
    let listing = object(vec![
        ("1", light("Lamp", 120, true)),
        ("2", light("Hall", 9, false)),
        ("3", light("Desk", 50, true)),
    ]);
    assert_eq!(menu.update_lights(&listing, 0), Ok(()));
    assert_eq!(menu.find_light("1"), Some(0));
    assert_eq!(menu.find_light("3"), Some(1));
    assert_eq!(menu.find_light("2"), None);
    assert_eq!(menu.find_light(""), None);

    let fewer = object(vec![("3", light("Desk", 50, true))]);
    assert_eq!(menu.update_lights(&fewer, 10 * MS), Ok(()));
    assert_eq!(menu.find_light("1"), None);
    assert_eq!(menu.find_light("3"), Some(0));
}

#[test]
fn firing_update_sends_the_value_the_slider_shows_then() {
    let session = paired();
    let mut menu = MenuDelegate::new();
    let listing = object(vec![("1", light("Lamp", 120, true)), ("3", light("Desk", 50, true))]);
    assert_eq!(menu.update_lights(&listing, 0), Ok(()));
    assert!(menu.drag_slider(1, 60, 51 * MS));
    let request = menu.update_bri_from_slider(1, 0, &session);
    assert_eq!(
        request,
        Request {
            method: Method::Put,
            host: "bridge.local".to_string(),
            path: "/api/abc123/lights/3/state".to_string(),
            body: Some(object(vec![
                ("on", Json::Bool(false)),
                ("bri", Json::Int(0)),
                ("transitiontime", Json::Int(1)),
            ])),
        }
    );
    assert_eq!(menu.light_controllers()[1].bri(), 0);
    assert_eq!(menu.light_controllers()[1].last_updated_bri(), 51 * MS);
    assert_eq!(menu.light_controllers()[0].bri(), 120);

    menu.set_bri(0, 999);
    assert_eq!(menu.light_controllers()[0].bri(), 254);
    assert_eq!(menu.light_controllers()[0].last_updated_bri(), 0);
}
