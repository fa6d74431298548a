//! The world snapshot: the player's units, visible enemies, food and terrain,
//! home cells and turn data, built whole from one server answer.

use vstd::prelude::*;
use crate::api::{
    opt_text, ApiAnt, ApiAntView, ApiArenaResponse, ApiEnemy, ApiFood, ApiFoodOnMap, ApiTile, ArenaView,
};
use crate::keyed::{has_key, keys_unique, lemma_table_of, place, table_of};
use crate::types::{
    coords_of, hex_of, hexes_of, ant_type_or_worker, food_type_or_apple, tile_type_or_plain,
    AntType, FoodType, HexCoord, TileType,
};

verus! {

/// Food held by a unit.
#[derive(Clone, Copy, Debug, PartialEq, Eq, Structural)]
pub struct Food {
    pub amount: i32,
    pub food_type: FoodType,
}

pub open spec fn food_of(f: ApiFood) -> Food {
    Food { amount: f.amount, food_type: food_type_or_apple(f.food_type) }
}

impl Food {
    pub fn from_api(f: ApiFood) -> (r: Food)
        ensures
            r == food_of(f),
    {
        let food_type = match FoodType::from_api(f.food_type) {
            Some(t) => t,
            None => FoodType::Apple,
        };
        Food { amount: f.amount, food_type }
    }

    /// Whether any food is held.
    pub fn is_some(&self) -> (r: bool)
        ensures
            r == (self.amount > 0),
    {
        self.amount > 0
    }
}

/// Food lying on a cell.
#[derive(Clone, Copy, Debug, PartialEq, Eq, Structural)]
pub struct FoodOnMap {
    pub position: HexCoord,
    pub amount: i32,
    pub food_type: FoodType,
}

pub open spec fn food_on_map_of(f: ApiFoodOnMap) -> FoodOnMap {
    FoodOnMap {
        position: HexCoord { q: f.q, r: f.r },
        amount: f.amount,
        food_type: food_type_or_apple(f.food_type),
    }
}

/// A visible cell of terrain.
#[derive(Clone, Copy, Debug, PartialEq, Eq, Structural)]
pub struct Tile {
    pub position: HexCoord,
    pub tile_type: TileType,
    pub cost: i32,
}

pub open spec fn tile_of(t: ApiTile) -> Tile {
    Tile {
        position: HexCoord { q: t.q, r: t.r },
        tile_type: tile_type_or_plain(t.tile_type),
        cost: t.cost,
    }
}

/// A visible enemy unit.
#[derive(Clone, Copy, Debug, PartialEq, Eq, Structural)]
pub struct Enemy {
    pub ant_type: AntType,
    pub position: HexCoord,
    pub health: i32,
    pub food: Food,
    pub attack: i32,
}

pub open spec fn enemy_of(e: ApiEnemy) -> Enemy {
    Enemy {
        ant_type: ant_type_or_worker(e.ant_type),
        position: HexCoord { q: e.q, r: e.r },
        health: e.health,
        food: food_of(e.food),
        attack: e.attack,
    }
}

impl FoodOnMap {
    pub fn from_api(f: ApiFoodOnMap) -> (r: FoodOnMap)
        ensures
            r == food_on_map_of(f),
    {
        let food_type = match FoodType::from_api(f.food_type) {
            Some(t) => t,
            None => FoodType::Apple,
        };
        FoodOnMap { position: HexCoord::new(f.q, f.r), amount: f.amount, food_type }
    }
}

impl Tile {
    pub fn from_api(t: ApiTile) -> (r: Tile)
        ensures
            r == tile_of(t),
    {
        let tile_type = match TileType::from_api(t.tile_type) {
            Some(k) => k,
            None => TileType::Plain,
        };
        Tile { position: HexCoord::new(t.q, t.r), tile_type, cost: t.cost }
    }
}

impl Enemy {
    pub fn from_api(e: ApiEnemy) -> (r: Enemy)
        ensures
            r == enemy_of(e),
    {
        let ant_type = match AntType::from_api(e.ant_type) {
            Some(t) => t,
            None => AntType::Worker,
        };
        Enemy {
            ant_type,
            position: HexCoord::new(e.q, e.r),
            health: e.health,
            food: Food::from_api(e.food),
            attack: e.attack,
        }
    }
}

/// One of the player's own units.
#[derive(Debug)]
pub struct Ant {
    pub id: String,
    pub ant_type: AntType,
    pub position: HexCoord,
    pub health: i32,
    pub max_health: i32,
    pub food: Food,
    pub last_move: Vec<HexCoord>,
    pub current_move: Vec<HexCoord>,
    pub last_attack: Option<HexCoord>,
    pub last_enemy_ant: Option<String>,
}

pub struct AntView {
    pub id: Seq<char>,
    pub ant_type: AntType,
    pub position: HexCoord,
    pub health: i32,
    pub max_health: i32,
    pub food: Food,
    pub last_move: Seq<HexCoord>,
    pub current_move: Seq<HexCoord>,
    pub last_attack: Option<HexCoord>,
    pub last_enemy_ant: Option<Seq<char>>,
}

impl View for Ant {
    type V = AntView;

    open spec fn view(&self) -> AntView {
        AntView {
            id: self.id@,
            ant_type: self.ant_type,
            position: self.position,
            health: self.health,
            max_health: self.max_health,
            food: self.food,
            last_move: self.last_move@,
            current_move: self.current_move@,
            last_attack: self.last_attack,
            last_enemy_ant: opt_text(self.last_enemy_ant),
        }
    }
}

/// Full health of each kind of ant.
pub open spec fn full_health(t: AntType) -> i32 {
    match t {
        AntType::Worker => 130,
        AntType::Soldier => 180,
        AntType::Scout => 80,
    }
}

pub open spec fn ant_of(a: ApiAntView) -> AntView {
    AntView {
        id: a.id,
        ant_type: ant_type_or_worker(a.ant_type),
        position: HexCoord { q: a.q, r: a.r },
        health: a.health,
        max_health: full_health(ant_type_or_worker(a.ant_type)),
        food: food_of(a.food),
        last_move: hexes_of(a.last_move),
        current_move: hexes_of(a.current_move),
        last_attack: match a.last_attack {
            Some(h) => Some(hex_of(h)),
            None => None,
        },
        last_enemy_ant: a.last_enemy_ant,
    }
}

fn clone_text(o: &Option<String>) -> (r: Option<String>)
    ensures
        opt_text(r) == opt_text(*o),
{
    match o {
        Some(s) => Some(s.clone()),
        None => None,
    }
}

impl Ant {
    pub fn from_api(a: &ApiAnt) -> (r: Ant)
        ensures
            r@ == ant_of(a@),
    {
        let ant_type = match AntType::from_api(a.ant_type) {
            Some(t) => t,
            None => AntType::Worker,
        };
        let last_attack = match a.last_attack {
            Some(h) => Some(h.to_coord()),
            None => None,
        };
        Ant {
            id: a.id.clone(),
            ant_type,
            position: HexCoord::new(a.q, a.r),
            health: a.health,
            max_health: ant_type.health(),
            food: Food::from_api(a.food),
            last_move: coords_of(&a.last_move),
            current_move: coords_of(&a.current_move),
            last_attack,
            last_enemy_ant: clone_text(&a.last_enemy_ant),
        }
    }

    /// The food carried, where there is any.
    pub fn food(&self) -> (r: Option<(FoodType, i32)>)
        ensures
            r == (if self.food.amount > 0 {
                Some((self.food.food_type, self.food.amount))
            } else {
                None
            }),
    {
        if self.food.amount > 0 {
            Some((self.food.food_type, self.food.amount))
        } else {
            None
        }
    }
}

/// Entities that occupy one cell, which is their key in the snapshot.
pub trait Located {
    spec fn at(&self) -> HexCoord;

    fn position_of(&self) -> (p: HexCoord)
        ensures
            p == self.at(),
    ;
}

impl Located for Enemy {
    open spec fn at(&self) -> HexCoord {
        self.position
    }

    fn position_of(&self) -> (p: HexCoord) {
        self.position
    }
}

impl Located for FoodOnMap {
    open spec fn at(&self) -> HexCoord {
        self.position
    }

    fn position_of(&self) -> (p: HexCoord) {
        self.position
    }
}

impl Located for Tile {
    open spec fn at(&self) -> HexCoord {
        self.position
    }

    fn position_of(&self) -> (p: HexCoord) {
        self.position
    }
}

/// The key of a located entity: its cell.
pub open spec fn cell_key<T: Located>() -> spec_fn(T) -> HexCoord {
    |x: T| x.at()
}

/// The key of a unit: its id.
pub open spec fn id_key() -> spec_fn(AntView) -> Seq<char> {
    |a: AntView| a.id
}

pub open spec fn ants_view(s: Seq<Ant>) -> Seq<AntView> {
    s.map_values(|a: Ant| a@)
}

/// Places `x` in a table keyed by cell: over the entry on the same cell, or at the end.
pub fn upsert_located<T: Located>(v: &mut Vec<T>, x: T)
    requires
        keys_unique(old(v)@, cell_key::<T>()),
    ensures
        final(v)@ == place(old(v)@, x, cell_key::<T>()),
{
    let p = x.position_of();
    let n = v.len();
    let mut j: usize = 0;
    while j < n
        invariant
            n == v@.len(),
            *v == *old(v),
            keys_unique(v@, cell_key::<T>()),
            j <= n,
            p == x.at(),
            forall|i: int| 0 <= i < j ==> (#[trigger] v@[i]).at() != p,
        decreases n - j,
    {
        if v[j].position_of() == p {
            proof {
                let key = cell_key::<T>();
                assert(key(v@[j as int]) == key(x));
                let m = crate::keyed::key_index(v@, key(x), key);
                assert(m == j);
            }
            v[j] = x;
            return;
        }
        j = j + 1;
    }
    proof {
        let key = cell_key::<T>();
        assert(!crate::keyed::has_key(v@, key(x), key)) by {
            if crate::keyed::has_key(v@, key(x), key) {
                let i = choose|i: int| 0 <= i < v@.len() && key(#[trigger] v@[i]) == key(x);
                assert(v@[i].at() == p);
            }
        }
    }
    v.push(x);
}

/// Places `a` in a table of units keyed by id: over the unit with the same id,
/// or at the end.
pub fn upsert_ant(v: &mut Vec<Ant>, a: Ant)
    requires
        keys_unique(ants_view(old(v)@), id_key()),
    ensures
        ants_view(final(v)@) == place(ants_view(old(v)@), a@, id_key()),
{
    let n = v.len();
    let mut j: usize = 0;
    while j < n
        invariant
            n == v@.len(),
            *v == *old(v),
            keys_unique(ants_view(v@), id_key()),
            j <= n,
            forall|i: int| 0 <= i < j ==> (#[trigger] v@[i]).id@ != a.id@,
        decreases n - j,
    {
        if v[j].id == a.id {
            proof {
                let key = id_key();
                let s = ants_view(v@);
                assert(key(s[j as int]) == key(a@));
                let m = crate::keyed::key_index(s, key(a@), key);
                assert(m == j);
            }
            let ghost before = ants_view(v@);
            v[j] = a;
            proof {
                assert(ants_view(v@) =~= before.update(j as int, a@));
            }
            return;
        }
        j = j + 1;
    }
    proof {
        let key = id_key();
        let s = ants_view(v@);
        assert(!crate::keyed::has_key(s, key(a@), key)) by {
            if crate::keyed::has_key(s, key(a@), key) {
                let i = choose|i: int| 0 <= i < s.len() && key(#[trigger] s[i]) == key(a@);
                assert(v@[i].id@ == a.id@);
            }
        }
    }
    let ghost before = ants_view(v@);
    v.push(a);
    proof {
        assert(ants_view(v@) =~= before.push(a@));
    }
}

/// Builds a table keyed by cell from a list of entities; the last entity on
/// each cell wins.
pub fn located_table<T: Located + Copy>(items: &Vec<T>) -> (v: Vec<T>)
    ensures
        v@ == table_of(items@, cell_key::<T>()),
{
    let mut v: Vec<T> = Vec::new();
    let n = items.len();
    let mut i: usize = 0;
    while i < n
        invariant
            n == items@.len(),
            i <= n,
            v@ == table_of(items@.subrange(0, i as int), cell_key::<T>()),
        decreases n - i,
    {
        let x = items[i];
        proof {
            lemma_table_of(items@.subrange(0, i as int), cell_key::<T>());
            assert(items@.subrange(0, i + 1).drop_last() =~= items@.subrange(0, i as int));
        }
        upsert_located(&mut v, x);
        i = i + 1;
    }
    proof {
        assert(items@.subrange(0, n as int) =~= items@);
    }
    v
}

/// Converts a list of enemy units, keeping their order.
pub fn enemies_of(v: &Vec<ApiEnemy>) -> (r: Vec<Enemy>)
    ensures
        r@ == v@.map_values(|x: ApiEnemy| enemy_of(x)),
{
    let n = v.len();
    let mut r: Vec<Enemy> = Vec::new();
    let mut i: usize = 0;
    while i < n
        invariant
            n == v@.len(),
            i <= n,
            r@ == v@.subrange(0, i as int).map_values(|x: ApiEnemy| enemy_of(x)),
        decreases n - i,
    {
        r.push(Enemy::from_api(v[i]));
        proof {
            assert(v@.subrange(0, i + 1).map_values(|x: ApiEnemy| enemy_of(x)) =~= v@.subrange(
                0,
                i as int,
            ).map_values(|x: ApiEnemy| enemy_of(x)).push(enemy_of(v@[i as int])));
        }
        i = i + 1;
    }
    proof {
        assert(v@.subrange(0, n as int) =~= v@);
    }
    r
}

/// Converts a list of food records, keeping their order.
pub fn foods_of(v: &Vec<ApiFoodOnMap>) -> (r: Vec<FoodOnMap>)
    ensures
        r@ == v@.map_values(|x: ApiFoodOnMap| food_on_map_of(x)),
{
    let n = v.len();
    let mut r: Vec<FoodOnMap> = Vec::new();
    let mut i: usize = 0;
    while i < n
        invariant
            n == v@.len(),
            i <= n,
            r@ == v@.subrange(0, i as int).map_values(|x: ApiFoodOnMap| food_on_map_of(x)),
        decreases n - i,
    {
        r.push(FoodOnMap::from_api(v[i]));
        proof {
            assert(v@.subrange(0, i + 1).map_values(|x: ApiFoodOnMap| food_on_map_of(x)) =~= v@.subrange(
                0,
                i as int,
            ).map_values(|x: ApiFoodOnMap| food_on_map_of(x)).push(food_on_map_of(v@[i as int])));
        }
        i = i + 1;
    }
    proof {
        assert(v@.subrange(0, n as int) =~= v@);
    }
    r
}

/// Converts a list of terrain records, keeping their order.
pub fn tiles_of(v: &Vec<ApiTile>) -> (r: Vec<Tile>)
    ensures
        r@ == v@.map_values(|x: ApiTile| tile_of(x)),
{
    let n = v.len();
    let mut r: Vec<Tile> = Vec::new();
    let mut i: usize = 0;
    while i < n
        invariant
            n == v@.len(),
            i <= n,
            r@ == v@.subrange(0, i as int).map_values(|x: ApiTile| tile_of(x)),
        decreases n - i,
    {
        r.push(Tile::from_api(v[i]));
        proof {
            assert(v@.subrange(0, i + 1).map_values(|x: ApiTile| tile_of(x)) =~= v@.subrange(
                0,
                i as int,
            ).map_values(|x: ApiTile| tile_of(x)).push(tile_of(v@[i as int])));
        }
        i = i + 1;
    }
    proof {
        assert(v@.subrange(0, n as int) =~= v@);
    }
    r
}

/// The units of a snapshot answer, converted.
pub open spec fn ants_of(s: Seq<ApiAntView>) -> Seq<AntView> {
    s.map_values(|a: ApiAntView| ant_of(a))
}

/// Builds the table of the player's units; the last unit with each id wins.
pub fn ant_table(v: &Vec<ApiAnt>) -> (r: Vec<Ant>)
    ensures
        ants_view(r@) == table_of(ants_of(crate::api::api_ants_view(v@)), id_key()),
{
    let ghost src = ants_of(crate::api::api_ants_view(v@));
    let n = v.len();
    let mut r: Vec<Ant> = Vec::new();
    let mut i: usize = 0;
    proof {
        assert(ants_view(r@) =~= Seq::<AntView>::empty());
    }
    while i < n
        invariant
            n == v@.len(),
            src == ants_of(crate::api::api_ants_view(v@)),
            i <= n,
            ants_view(r@) == table_of(src.subrange(0, i as int), id_key()),
        decreases n - i,
    {
        let a = Ant::from_api(&v[i]);
        proof {
            lemma_table_of(src.subrange(0, i as int), id_key());
            assert(src.subrange(0, i + 1).drop_last() =~= src.subrange(0, i as int));
            assert(src[i as int] == a@);
        }
        upsert_ant(&mut r, a);
        i = i + 1;
    }
    proof {
        assert(src.subrange(0, n as int) =~= src);
    }
    r
}

/// The world as the game knows it between two snapshots.
#[derive(Debug)]
pub struct GameState {
    pub connected: bool,
    pub last_update_ms: i64,
    pub score: i32,
    pub level: i32,
    pub my_ants: Vec<Ant>,
    pub enemy_ants: Vec<Enemy>,
    pub food_on_map: Vec<FoodOnMap>,
    pub visible_tiles: Vec<Tile>,
    pub home_tiles: Vec<HexCoord>,
    pub main_spot: HexCoord,
    pub turn_number: i32,
    pub next_turn_in_ms: i64,
    /// How many units, enemies and food records the last answer listed.
    pub ants_count: usize,
    pub enemies_count: usize,
    pub food_count: usize,
}

pub struct GameStateView {
    pub connected: bool,
    pub last_update_ms: i64,
    pub score: i32,
    pub level: i32,
    pub ants: Seq<AntView>,
    pub enemies: Seq<Enemy>,
    pub food: Seq<FoodOnMap>,
    pub tiles: Seq<Tile>,
    pub home: Seq<HexCoord>,
    pub main_spot: HexCoord,
    pub turn_number: i32,
    pub next_turn_in_ms: i64,
    pub ants_count: nat,
    pub enemies_count: nat,
    pub food_count: nat,
}

impl View for GameState {
    type V = GameStateView;

    open spec fn view(&self) -> GameStateView {
        GameStateView {
            connected: self.connected,
            last_update_ms: self.last_update_ms,
            score: self.score,
            level: self.level,
            ants: ants_view(self.my_ants@),
            enemies: self.enemy_ants@,
            food: self.food_on_map@,
            tiles: self.visible_tiles@,
            home: self.home_tiles@,
            main_spot: self.main_spot,
            turn_number: self.turn_number,
            next_turn_in_ms: self.next_turn_in_ms,
            ants_count: self.ants_count as nat,
            enemies_count: self.enemies_count as nat,
            food_count: self.food_count as nat,
        }
    }
}

/// The world before any snapshot has arrived.
pub open spec fn empty_world() -> GameStateView {
    GameStateView {
        connected: false,
        last_update_ms: 0,
        score: 0,
        level: 1,
        ants: Seq::empty(),
        enemies: Seq::empty(),
        food: Seq::empty(),
        tiles: Seq::empty(),
        home: Seq::empty(),
        main_spot: HexCoord { q: 0, r: 0 },
        turn_number: 0,
        next_turn_in_ms: 0,
        ants_count: 0,
        enemies_count: 0,
        food_count: 0,
    }
}

/// The world that one snapshot answer describes, received at `now_ms`.
pub open spec fn world_of(r: ArenaView, now_ms: i64) -> GameStateView {
    GameStateView {
        connected: true,
        last_update_ms: now_ms,
        score: r.score,
        level: r.turn_no,
        ants: table_of(ants_of(r.ants), id_key()),
        enemies: table_of(r.enemies.map_values(|x: ApiEnemy| enemy_of(x)), cell_key::<Enemy>()),
        food: table_of(r.food.map_values(|x: ApiFoodOnMap| food_on_map_of(x)), cell_key::<FoodOnMap>()),
        tiles: table_of(r.map.map_values(|x: ApiTile| tile_of(x)), cell_key::<Tile>()),
        home: hexes_of(r.home),
        main_spot: hex_of(r.spot),
        turn_number: r.turn_no,
        next_turn_in_ms: r.next_turn_in_ms,
        ants_count: r.ants.len(),
        enemies_count: r.enemies.len(),
        food_count: r.food.len(),
    }
}

impl GameState {
    /// Each table holds at most one entry per key.
    pub open spec fn wf(&self) -> bool {
        &&& keys_unique(ants_view(self.my_ants@), id_key())
        &&& keys_unique(self.enemy_ants@, cell_key::<Enemy>())
        &&& keys_unique(self.food_on_map@, cell_key::<FoodOnMap>())
        &&& keys_unique(self.visible_tiles@, cell_key::<Tile>())
    }

    pub fn empty() -> (g: GameState)
        ensures
            g@ == empty_world(),
            g.wf(),
    {
        let g = GameState {
            connected: false,
            last_update_ms: 0,
            score: 0,
            level: 1,
            my_ants: Vec::new(),
            enemy_ants: Vec::new(),
            food_on_map: Vec::new(),
            visible_tiles: Vec::new(),
            home_tiles: Vec::new(),
            main_spot: HexCoord::new(0, 0),
            turn_number: 0,
            next_turn_in_ms: 0,
            ants_count: 0,
            enemies_count: 0,
            food_count: 0,
        };
        assert(ants_view(g.my_ants@) =~= Seq::<AntView>::empty());
        g
    }

    /// The world that `response` describes, stamped with `now_ms`: built whole
    /// from the answer, with nothing kept from any earlier state.
    pub fn from_api_response(response: &ApiArenaResponse, now_ms: i64) -> (g: GameState)
        ensures
            g@ == world_of(response@, now_ms),
            g.wf(),
    {
        let enemies = enemies_of(&response.enemies);
        let foods = foods_of(&response.food);
        let tiles = tiles_of(&response.map);
        let g = GameState {
            connected: true,
            last_update_ms: now_ms,
            score: response.score,
            level: response.turn_no,
            my_ants: ant_table(&response.ants),
            enemy_ants: located_table(&enemies),
            food_on_map: located_table(&foods),
            visible_tiles: located_table(&tiles),
            home_tiles: coords_of(&response.home),
            main_spot: response.spot.to_coord(),
            turn_number: response.turn_no,
            next_turn_in_ms: response.next_turn_in_ms,
            ants_count: response.ants.len(),
            enemies_count: response.enemies.len(),
            food_count: response.food.len(),
        };
        proof {
            lemma_table_of(ants_of(response@.ants), id_key());
            lemma_table_of(enemies@, cell_key::<Enemy>());
            lemma_table_of(foods@, cell_key::<FoodOnMap>());
            lemma_table_of(tiles@, cell_key::<Tile>());
        }
        g
    }
}

impl Default for GameState {
    fn default() -> (g: GameState)
        ensures
            g@ == empty_world(),
    {
        GameState::empty()
    }
}

/// Applying a snapshot replaces the world whole: the new world holds a unit,
/// an enemy, food or a tile under a key exactly when the answer holds one
/// under that key, so nothing absent from the answer survives the update; and
/// each unit of the new world is the conversion of one unit of the answer.
pub proof fn lemma_snapshot_replaces(r: ArenaView, now_ms: i64)
    ensures
        forall|id: Seq<char>|
            has_key(world_of(r, now_ms).ants, id, id_key()) <==> exists|j: int|
                0 <= j < r.ants.len() && (#[trigger] r.ants[j]).id == id,
        forall|c: HexCoord|
            has_key(world_of(r, now_ms).enemies, c, cell_key::<Enemy>()) <==> exists|j: int|
                0 <= j < r.enemies.len() && hex_of_enemy(#[trigger] r.enemies[j]) == c,
        forall|c: HexCoord|
            has_key(world_of(r, now_ms).food, c, cell_key::<FoodOnMap>()) <==> exists|j: int|
                0 <= j < r.food.len() && hex_of_food(#[trigger] r.food[j]) == c,
        forall|c: HexCoord|
            has_key(world_of(r, now_ms).tiles, c, cell_key::<Tile>()) <==> exists|j: int|
                0 <= j < r.map.len() && hex_of_tile(#[trigger] r.map[j]) == c,
        forall|i: int|
            0 <= i < world_of(r, now_ms).ants.len() ==> exists|j: int|
                0 <= j < r.ants.len() && #[trigger] world_of(r, now_ms).ants[i] == ant_of(r.ants[j]),
{
    let w = world_of(r, now_ms);
    let sa = ants_of(r.ants);
    let se = r.enemies.map_values(|x: ApiEnemy| enemy_of(x));
    let sf = r.food.map_values(|x: ApiFoodOnMap| food_on_map_of(x));
    let st = r.map.map_values(|x: ApiTile| tile_of(x));
    lemma_table_of(sa, id_key());
    lemma_table_of(se, cell_key::<Enemy>());
    lemma_table_of(sf, cell_key::<FoodOnMap>());
    lemma_table_of(st, cell_key::<Tile>());
    assert forall|id: Seq<char>| has_key(w.ants, id, id_key()) <==> exists|j: int|
        0 <= j < r.ants.len() && (#[trigger] r.ants[j]).id == id by {
        assert(has_key(w.ants, id, id_key()) == has_key(sa, id, id_key()));
        if exists|j: int| 0 <= j < r.ants.len() && (#[trigger] r.ants[j]).id == id {
            let j = choose|j: int| 0 <= j < r.ants.len() && (#[trigger] r.ants[j]).id == id;
            assert(id_key()(sa[j]) == id);
        }
        if has_key(sa, id, id_key()) {
            let j = choose|j: int| 0 <= j < sa.len() && id_key()(#[trigger] sa[j]) == id;
            assert(r.ants[j].id == id);
        }
    }
    assert forall|c: HexCoord| has_key(w.enemies, c, cell_key::<Enemy>()) <==> exists|j: int|
        0 <= j < r.enemies.len() && hex_of_enemy(#[trigger] r.enemies[j]) == c by {
        assert(has_key(w.enemies, c, cell_key::<Enemy>()) == has_key(se, c, cell_key::<Enemy>()));
        if exists|j: int| 0 <= j < r.enemies.len() && hex_of_enemy(#[trigger] r.enemies[j]) == c {
            let j = choose|j: int| 0 <= j < r.enemies.len() && hex_of_enemy(#[trigger] r.enemies[j]) == c;
            assert(cell_key::<Enemy>()(se[j]) == c);
        }
        if has_key(se, c, cell_key::<Enemy>()) {
            let j = choose|j: int| 0 <= j < se.len() && cell_key::<Enemy>()(#[trigger] se[j]) == c;
            assert(hex_of_enemy(r.enemies[j]) == c);
        }
    }
    assert forall|c: HexCoord| has_key(w.food, c, cell_key::<FoodOnMap>()) <==> exists|j: int|
        0 <= j < r.food.len() && hex_of_food(#[trigger] r.food[j]) == c by {
        assert(has_key(w.food, c, cell_key::<FoodOnMap>()) == has_key(sf, c, cell_key::<FoodOnMap>()));
        if exists|j: int| 0 <= j < r.food.len() && hex_of_food(#[trigger] r.food[j]) == c {
            let j = choose|j: int| 0 <= j < r.food.len() && hex_of_food(#[trigger] r.food[j]) == c;
            assert(cell_key::<FoodOnMap>()(sf[j]) == c);
        }
        if has_key(sf, c, cell_key::<FoodOnMap>()) {
            let j = choose|j: int| 0 <= j < sf.len() && cell_key::<FoodOnMap>()(#[trigger] sf[j]) == c;
            assert(hex_of_food(r.food[j]) == c);
        }
    }
    assert forall|c: HexCoord| has_key(w.tiles, c, cell_key::<Tile>()) <==> exists|j: int|
        0 <= j < r.map.len() && hex_of_tile(#[trigger] r.map[j]) == c by {
        assert(has_key(w.tiles, c, cell_key::<Tile>()) == has_key(st, c, cell_key::<Tile>()));
        if exists|j: int| 0 <= j < r.map.len() && hex_of_tile(#[trigger] r.map[j]) == c {
            let j = choose|j: int| 0 <= j < r.map.len() && hex_of_tile(#[trigger] r.map[j]) == c;
            assert(cell_key::<Tile>()(st[j]) == c);
        }
        if has_key(st, c, cell_key::<Tile>()) {
            let j = choose|j: int| 0 <= j < st.len() && cell_key::<Tile>()(#[trigger] st[j]) == c;
            assert(hex_of_tile(r.map[j]) == c);
        }
    }
    assert forall|i: int| 0 <= i < w.ants.len() implies exists|j: int|
        0 <= j < r.ants.len() && #[trigger] w.ants[i] == ant_of(r.ants[j]) by {
        let j = choose|j: int| 0 <= j < sa.len() && #[trigger] w.ants[i] == sa[j];
        assert(w.ants[i] == ant_of(r.ants[j]));
    }
}

pub open spec fn hex_of_enemy(e: ApiEnemy) -> HexCoord {
    HexCoord { q: e.q, r: e.r }
}

pub open spec fn hex_of_food(f: ApiFoodOnMap) -> HexCoord {
    HexCoord { q: f.q, r: f.r }
}

pub open spec fn hex_of_tile(t: ApiTile) -> HexCoord {
    HexCoord { q: t.q, r: t.r }
}

} // verus!
