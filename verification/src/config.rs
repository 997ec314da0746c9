//! The immutable configuration threaded into every request-handling and
//! consumer task, and the destination router: ordered pattern rules plus a
//! mandatory default room.

use vstd::prelude::*;

use crate::strings::str_eq;

verus! {

/// A chat room the bot may use: its symbolic name, its room id, and whether
/// it receives everything that matched no rule.
pub struct RoomConfig {
    pub name: String,
    pub id: String,
    pub default: bool,
}

/// One ordered routing rule: repositories matching the pattern go to the
/// named room.
pub struct Destination {
    pub room: String,
    pub pattern: String,
}

/// A tenant of the generic endpoint: its name, its room, and the secret
/// that authenticates requests to it.
pub struct GenericEndpoint {
    pub name: String,
    pub room: String,
    pub secret: String,
}

/// Everything the bot is configured with.
pub struct ProloloConfig {
    pub matrix_homeserver: String,
    pub matrix_username: String,
    pub matrix_password: String,
    pub matrix_state_dir: String,
    pub matrix_rooms: Vec<RoomConfig>,
    pub destinations: Vec<Destination>,
    pub generic_endpoints: Vec<GenericEndpoint>,
    pub github_secret: String,
    pub prolosite_secret: String,
}

/// Whether `text` matches the rule pattern `pattern`: a function of the two
/// strings alone.
pub uninterp spec fn pattern_matches(pattern: Seq<char>, text: Seq<char>) -> bool;

/// Relies on `regex::Regex::new` and `Regex::is_match`: whether `text`
/// matches `pattern`, deterministic in the two strings; a pattern that does
/// not compile matches nothing.
#[verifier::external_body]
pub(crate) fn regex_matches(pattern: &str, text: &str) -> (r: bool)
    ensures
        r == pattern_matches(pattern@, text@),
{
    match regex::Regex::new(pattern) {
        Ok(re) => re.is_match(text),
        Err(_) => false,
    }
}

/// The position of the first rule at or after `i` whose pattern matches.
pub open spec fn first_match_from(dests: Seq<Destination>, key: Seq<char>, i: int) -> Option<int>
    decreases dests.len() - i,
{
    if i < 0 || i >= dests.len() {
        None
    } else if pattern_matches(dests[i].pattern@, key) {
        Some(i)
    } else {
        first_match_from(dests, key, i + 1)
    }
}

/// The position of the first rule whose pattern matches `key`: rules are
/// evaluated top to bottom, first match wins.
pub open spec fn first_match(dests: Seq<Destination>, key: Seq<char>) -> Option<int> {
    first_match_from(dests, key, 0)
}

/// The first room at or after `i` bearing `name`.
pub open spec fn room_named_from(rooms: Seq<RoomConfig>, name: Seq<char>, i: int) -> Option<
    RoomConfig,
>
    decreases rooms.len() - i,
{
    if i < 0 || i >= rooms.len() {
        None
    } else if rooms[i].name@ == name {
        Some(rooms[i])
    } else {
        room_named_from(rooms, name, i + 1)
    }
}

/// The first room bearing `name`.
pub open spec fn room_named(rooms: Seq<RoomConfig>, name: Seq<char>) -> Option<RoomConfig> {
    room_named_from(rooms, name, 0)
}

/// The first room at or after `i` flagged as default.
pub open spec fn default_room_from(rooms: Seq<RoomConfig>, i: int) -> Option<RoomConfig>
    decreases rooms.len() - i,
{
    if i < 0 || i >= rooms.len() {
        None
    } else if rooms[i].default {
        Some(rooms[i])
    } else {
        default_room_from(rooms, i + 1)
    }
}

/// The first room flagged as default.
pub open spec fn default_room_of(rooms: Seq<RoomConfig>) -> Option<RoomConfig> {
    default_room_from(rooms, 0)
}

/// Why no room could be resolved: a matched rule names an unknown room, or
/// no default room is configured. Both are configuration errors.
#[derive(Debug)]
pub enum RoutingError {
    UnknownDestination(String),
    NoDefaultRoom,
}

/// The model of a routing failure.
pub enum RouteFailure {
    UnknownDestination(Seq<char>),
    NoDefault,
}

/// The model of a routing result.
pub open spec fn route_result_view(r: Result<String, RoutingError>) -> Result<
    Seq<char>,
    RouteFailure,
> {
    match r {
        Ok(id) => Ok(id@),
        Err(RoutingError::UnknownDestination(name)) => Err(
            RouteFailure::UnknownDestination(name@),
        ),
        Err(RoutingError::NoDefaultRoom) => Err(RouteFailure::NoDefault),
    }
}

/// The room that receives everything without a matching rule: the first
/// room flagged as default, or a configuration error when none is.
pub open spec fn default_route(rooms: Seq<RoomConfig>) -> Result<Seq<char>, RouteFailure> {
    match default_room_of(rooms) {
        Some(rc) => Ok(rc.id@),
        None => Err(RouteFailure::NoDefault),
    }
}

/// Where a destination hint leads: the room of the first matching rule; the
/// default room when no rule matches or no hint was given; an error when a
/// matched rule names an unknown room or no default exists.
pub open spec fn route_spec(
    rooms: Seq<RoomConfig>,
    dests: Seq<Destination>,
    hint: Option<Seq<char>>,
) -> Result<Seq<char>, RouteFailure> {
    match hint {
        Some(key) => match first_match(dests, key) {
            Some(i) => match room_named(rooms, dests[i].room@) {
                Some(rc) => Ok(rc.id@),
                None => Err(RouteFailure::UnknownDestination(dests[i].room@)),
            },
            None => default_route(rooms),
        },
        None => default_route(rooms),
    }
}

/// Finds the first rule whose pattern matches `key`.
fn find_first_match(dests: &Vec<Destination>, key: &str) -> (r: Option<usize>)
    ensures
        match r {
            Some(i) => first_match(dests@, key@) == Some(i as int) && i < dests@.len(),
            None => first_match(dests@, key@) is None,
        },
{
    let mut i: usize = 0;
    while i < dests.len()
        invariant
            i <= dests@.len(),
            first_match(dests@, key@) == first_match_from(dests@, key@, i as int),
        decreases dests@.len() - i,
    {
        if regex_matches(dests[i].pattern.as_str(), key) {
            proof {
                assert(first_match_from(dests@, key@, i as int) == Some(i as int));
            }
            return Some(i);
        }
        i += 1;
    }
    None
}

/// Finds the first room bearing `name`.
fn find_room_named(rooms: &Vec<RoomConfig>, name: &str) -> (r: Option<usize>)
    ensures
        match r {
            Some(j) => j < rooms@.len() && room_named(rooms@, name@) == Some(rooms@[j as int]),
            None => room_named(rooms@, name@) is None,
        },
{
    let mut j: usize = 0;
    while j < rooms.len()
        invariant
            j <= rooms@.len(),
            room_named(rooms@, name@) == room_named_from(rooms@, name@, j as int),
        decreases rooms@.len() - j,
    {
        if str_eq(rooms[j].name.as_str(), name) {
            proof {
                assert(room_named_from(rooms@, name@, j as int) == Some(rooms@[j as int]));
            }
            return Some(j);
        }
        j += 1;
    }
    None
}

impl ProloloConfig {
    /// The id of the default room, or the configuration error that no
    /// default room exists.
    pub fn default_room(&self) -> (r: Result<String, RoutingError>)
        ensures
            route_result_view(r) == default_route(self.matrix_rooms@),
    {
        let rooms = &self.matrix_rooms;
        let mut i: usize = 0;
        while i < rooms.len()
            invariant
                i <= rooms@.len(),
                rooms@ == self.matrix_rooms@,
                default_room_of(rooms@) == default_room_from(rooms@, i as int),
            decreases rooms@.len() - i,
        {
            if rooms[i].default {
                proof {
                    assert(default_room_from(rooms@, i as int) == Some(rooms@[i as int]));
                }
                return Ok(rooms[i].id.clone());
            }
            i += 1;
        }
        Err(RoutingError::NoDefaultRoom)
    }

    /// The room for the repository `repo`: the room of the first rule whose
    /// pattern matches, or the default room when none does.
    pub fn find_room_for(&self, repo: &str) -> (r: Result<String, RoutingError>)
        ensures
            route_result_view(r) == route_spec(
                self.matrix_rooms@,
                self.destinations@,
                Some(repo@),
            ),
    {
        match find_first_match(&self.destinations, repo) {
            Some(i) => {
                let wanted = &self.destinations[i].room;
                match find_room_named(&self.matrix_rooms, wanted.as_str()) {
                    Some(j) => Ok(self.matrix_rooms[j].id.clone()),
                    None => Err(RoutingError::UnknownDestination(wanted.clone())),
                }
            },
            None => self.default_room(),
        }
    }
}

/// Routing determinism: with rules for two patterns, a key matching both
/// resolves by the first rule; a key matching neither resolves to the
/// default room; and the absence of a hint always resolves to the default
/// room.
pub proof fn lemma_routing_determinism(
    rooms: Seq<RoomConfig>,
    d1: Destination,
    d2: Destination,
    key: Seq<char>,
)
    ensures
        pattern_matches(d1.pattern@, key) ==> route_spec(rooms, seq![d1, d2], Some(key)) == (
        match room_named(rooms, d1.room@) {
            Some(rc) => Ok::<Seq<char>, RouteFailure>(rc.id@),
            None => Err(RouteFailure::UnknownDestination(d1.room@)),
        }),
        !pattern_matches(d1.pattern@, key) && !pattern_matches(d2.pattern@, key) ==> route_spec(
            rooms,
            seq![d1, d2],
            Some(key),
        ) == default_route(rooms),
        route_spec(rooms, seq![d1, d2], None::<Seq<char>>) == default_route(rooms),
{
    let dests = seq![d1, d2];
    assert(dests[0] == d1);
    assert(dests[1] == d2);
    if pattern_matches(d1.pattern@, key) {
        assert(first_match(dests, key) == Some(0int));
    } else if !pattern_matches(d2.pattern@, key) {
        assert(first_match_from(dests, key, 2) is None);
        assert(first_match_from(dests, key, 1) is None);
        assert(first_match(dests, key) is None);
    }
}

} // verus!
