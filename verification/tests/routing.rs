use prololo::config::Destination;
use prololo::config::ProloloConfig;
use prololo::config::RoomConfig;
use prololo::config::RoutingError;

fn config_with(rooms: Vec<RoomConfig>, destinations: Vec<Destination>) -> ProloloConfig {
    ProloloConfig {
        matrix_homeserver: "https://matrix.example.org/".to_string(),
        matrix_username: "bot".to_string(),
        matrix_password: "hunter2".to_string(),
        matrix_state_dir: "/tmp/state".to_string(),
        matrix_rooms: rooms,
        destinations,
        generic_endpoints: vec![],
        github_secret: "gh".to_string(),
        prolosite_secret: "ps".to_string(),
    }
}

fn room(name: &str, id: &str, default: bool) -> RoomConfig {
    RoomConfig { name: name.to_string(), id: id.to_string(), default }
}

fn rule(pattern: &str, room: &str) -> Destination {
    Destination { room: room.to_string(), pattern: pattern.to_string() }
}

#[test]
fn first_matching_rule_wins() {
    let config = config_with(
        vec![room("main", "!main:x", true), room("dev", "!dev:x", false), room(
            "all",
            "!all:x",
            false,
        )],
        vec![rule("^acme/", "dev"), rule("acme", "all")],
    );
    // The key matches both patterns; the first rule decides.
    assert_eq!(config.find_room_for("acme/widgets").unwrap(), "!dev:x");
}

#[test]
fn no_matching_rule_falls_back_to_default() {
    let config = config_with(
        vec![room("main", "!main:x", true), room("dev", "!dev:x", false)],
        vec![rule("^acme/", "dev"), rule("^globex/", "dev")],
    );
    assert_eq!(config.find_room_for("initech/tps").unwrap(), "!main:x");
}

#[test]
fn absent_hint_resolves_to_default() {
    let config = config_with(
        vec![room("dev", "!dev:x", false), room("main", "!main:x", true)],
        vec![rule(".*", "dev")],
    );
    assert_eq!(config.default_room().unwrap(), "!main:x");
}

#[test]
fn matched_rule_with_unknown_room_is_an_error() {
    let config = config_with(
        vec![room("main", "!main:x", true)],
        vec![rule("^acme/", "nowhere")],
    );
    match config.find_room_for("acme/widgets") {
        Err(RoutingError::UnknownDestination(name)) => assert_eq!(name, "nowhere"),
        other => panic!("expected an unknown destination error, got {:?}", other.is_ok()),
    }
}

#[test]
fn missing_default_room_is_an_error() {
    let config = config_with(vec![room("dev", "!dev:x", false)], vec![]);
    assert!(matches!(config.default_room(), Err(RoutingError::NoDefaultRoom)));
    assert!(matches!(
        config.find_room_for("anything"),
        Err(RoutingError::NoDefaultRoom)
    ));
}

#[test]
fn unparsable_pattern_matches_nothing() {
    let config = config_with(
        vec![room("main", "!main:x", true), room("dev", "!dev:x", false)],
        vec![rule("(", "dev")],
    );
    assert_eq!(config.find_room_for("(anything").unwrap(), "!main:x");
}
