//! Records exchanged with the game server, as the library holds them once
//! decoded. Times the server sends in seconds are held in milliseconds.

use vstd::prelude::*;
use crate::types::{ApiHex, HexCoord};

verus! {

/// The view of an optional string.
pub open spec fn opt_text(o: Option<String>) -> Option<Seq<char>> {
    match o {
        Some(s) => Some(s@),
        None => None,
    }
}

/// Food carried by a unit.
#[derive(Clone, Copy, Debug, PartialEq, Eq, Structural)]
pub struct ApiFood {
    pub amount: i32,
    pub food_type: i32,
}

/// Food lying on a cell.
#[derive(Clone, Copy, Debug, PartialEq, Eq, Structural)]
pub struct ApiFoodOnMap {
    pub q: i32,
    pub r: i32,
    pub amount: i32,
    pub food_type: i32,
}

/// A visible cell of terrain.
#[derive(Clone, Copy, Debug, PartialEq, Eq, Structural)]
pub struct ApiTile {
    pub q: i32,
    pub r: i32,
    pub tile_type: i32,
    pub cost: i32,
}

/// A visible enemy unit.
#[derive(Clone, Copy, Debug, PartialEq, Eq, Structural)]
pub struct ApiEnemy {
    pub ant_type: i32,
    pub q: i32,
    pub r: i32,
    pub health: i32,
    pub food: ApiFood,
    pub attack: i32,
}

/// One of the player's own units.
#[derive(Debug)]
pub struct ApiAnt {
    pub id: String,
    pub ant_type: i32,
    pub q: i32,
    pub r: i32,
    pub health: i32,
    pub food: ApiFood,
    pub last_move: Vec<ApiHex>,
    pub current_move: Vec<ApiHex>,
    pub last_attack: Option<ApiHex>,
    pub last_enemy_ant: Option<String>,
}

pub struct ApiAntView {
    pub id: Seq<char>,
    pub ant_type: i32,
    pub q: i32,
    pub r: i32,
    pub health: i32,
    pub food: ApiFood,
    pub last_move: Seq<ApiHex>,
    pub current_move: Seq<ApiHex>,
    pub last_attack: Option<ApiHex>,
    pub last_enemy_ant: Option<Seq<char>>,
}

impl View for ApiAnt {
    type V = ApiAntView;

    open spec fn view(&self) -> ApiAntView {
        ApiAntView {
            id: self.id@,
            ant_type: self.ant_type,
            q: self.q,
            r: self.r,
            health: self.health,
            food: self.food,
            last_move: self.last_move@,
            current_move: self.current_move@,
            last_attack: self.last_attack,
            last_enemy_ant: opt_text(self.last_enemy_ant),
        }
    }
}

/// The views of a list of units.
pub open spec fn api_ants_view(s: Seq<ApiAnt>) -> Seq<ApiAntView> {
    s.map_values(|a: ApiAnt| a@)
}

/// The world as one snapshot answer describes it.
#[derive(Debug)]
pub struct ApiArenaResponse {
    pub ants: Vec<ApiAnt>,
    pub enemies: Vec<ApiEnemy>,
    pub food: Vec<ApiFoodOnMap>,
    pub home: Vec<ApiHex>,
    pub map: Vec<ApiTile>,
    pub next_turn_in_ms: i64,
    pub score: i32,
    pub spot: ApiHex,
    pub turn_no: i32,
}

pub struct ArenaView {
    pub ants: Seq<ApiAntView>,
    pub enemies: Seq<ApiEnemy>,
    pub food: Seq<ApiFoodOnMap>,
    pub home: Seq<ApiHex>,
    pub map: Seq<ApiTile>,
    pub next_turn_in_ms: i64,
    pub score: i32,
    pub spot: ApiHex,
    pub turn_no: i32,
}

impl View for ApiArenaResponse {
    type V = ArenaView;

    open spec fn view(&self) -> ArenaView {
        ArenaView {
            ants: api_ants_view(self.ants@),
            enemies: self.enemies@,
            food: self.food@,
            home: self.home@,
            map: self.map@,
            next_turn_in_ms: self.next_turn_in_ms,
            score: self.score,
            spot: self.spot,
            turn_no: self.turn_no,
        }
    }
}

/// The answer to a move batch: the world after the moves, and the server's
/// complaints about individual moves.
#[derive(Debug)]
pub struct ApiMoveResponse {
    pub ants: Vec<ApiAnt>,
    pub enemies: Vec<ApiEnemy>,
    pub food: Vec<ApiFoodOnMap>,
    pub home: Vec<ApiHex>,
    pub map: Vec<ApiTile>,
    pub errors: Vec<String>,
    pub next_turn_in_ms: i64,
    pub score: i32,
    pub spot: ApiHex,
    pub turn_no: i32,
}

/// The world that a move answer describes.
pub open spec fn arena_of_move(m: ApiMoveResponse) -> ArenaView {
    ArenaView {
        ants: api_ants_view(m.ants@),
        enemies: m.enemies@,
        food: m.food@,
        home: m.home@,
        map: m.map@,
        next_turn_in_ms: m.next_turn_in_ms,
        score: m.score,
        spot: m.spot,
        turn_no: m.turn_no,
    }
}

impl ApiMoveResponse {
    /// Splits the answer into the world it describes and its error strings.
    pub fn into_arena(self) -> (r: (ApiArenaResponse, Vec<String>))
        ensures
            r.0@ == arena_of_move(self),
            r.0.ants@ == self.ants@,
            r.0.enemies@ == self.enemies@,
            r.0.food@ == self.food@,
            r.0.home@ == self.home@,
            r.0.map@ == self.map@,
            r.0.next_turn_in_ms == self.next_turn_in_ms,
            r.0.score == self.score,
            r.0.spot == self.spot,
            r.0.turn_no == self.turn_no,
            r.1@ == self.errors@,
    {
        let arena = ApiArenaResponse {
            ants: self.ants,
            enemies: self.enemies,
            food: self.food,
            home: self.home,
            map: self.map,
            next_turn_in_ms: self.next_turn_in_ms,
            score: self.score,
            spot: self.spot,
            turn_no: self.turn_no,
        };
        (arena, self.errors)
    }
}

/// The answer to a successful registration.
#[derive(Clone, Debug)]
pub struct ApiRegistrationResponse {
    pub lobby_ends_in: i32,
    pub name: String,
    pub next_turn_ms: i64,
    pub realm: String,
}

/// An error record as the server describes one.
#[derive(Clone, Debug)]
pub struct ApiError {
    pub code: i32,
    pub message: String,
}

/// One line of the server's game log.
#[derive(Clone, Debug)]
pub struct ApiLogMessage {
    pub message: String,
    pub time: String,
}

/// The path one unit is ordered to walk.
#[derive(Clone, Debug)]
pub struct ApiMoveCommand {
    pub ant: String,
    pub path: Vec<ApiHex>,
}

/// A batch of move orders, sent as one request.
#[derive(Clone, Debug)]
pub struct ApiMoveRequest {
    pub moves: Vec<ApiMoveCommand>,
}

/// A move order for `ant_id` along `path`, in the server's form.
pub fn create_move_command(ant_id: String, path: Vec<HexCoord>) -> (c: ApiMoveCommand)
    ensures
        c.ant@ == ant_id@,
        c.path@ == crate::types::api_path(path@),
{
    let api_path = crate::types::api_path_of(&path);
    ApiMoveCommand { ant: ant_id, path: api_path }
}

/// A batch holding the given orders, in order.
pub fn create_move_request(commands: Vec<ApiMoveCommand>) -> (r: ApiMoveRequest)
    ensures
        r.moves@ == commands@,
{
    ApiMoveRequest { moves: commands }
}

} // verus!
