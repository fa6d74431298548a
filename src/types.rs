//! Wire records of the game server and the typed world entities built from them.

use vstd::prelude::*;

verus! {

/// A hexagonal cell in axial coordinates.
#[derive(Clone, Copy, Debug, PartialEq, Eq, Hash, Structural)]
pub struct HexCoord {
    pub q: i32,
    pub r: i32,
}

/// Distance between two cells, counted in steps between neighbours.
pub open spec fn hex_distance(a: HexCoord, b: HexCoord) -> int {
    let dq = a.q - b.q;
    let dr = a.r - b.r;
    let ds = (-a.q - a.r) - (-b.q - b.r);
    (abs(dq) + abs(dr) + abs(ds)) / 2
}

pub open spec fn abs(x: int) -> int {
    if x < 0 {
        -x
    } else {
        x
    }
}

fn abs_i64(x: i64) -> (r: i64)
    requires
        x > i64::MIN,
    ensures
        r == abs(x as int),
{
    if x < 0 {
        -x
    } else {
        x
    }
}

/// The six cells adjacent to `c`, counter-clockwise from the `+q` direction.
pub open spec fn neighbor_cells(c: HexCoord) -> Seq<HexCoord> {
    let (q, r) = (c.q as int, c.r as int);
    seq![
        HexCoord { q: (q + 1) as i32, r: r as i32 },
        HexCoord { q: (q + 1) as i32, r: (r - 1) as i32 },
        HexCoord { q: q as i32, r: (r - 1) as i32 },
        HexCoord { q: (q - 1) as i32, r: r as i32 },
        HexCoord { q: (q - 1) as i32, r: (r + 1) as i32 },
        HexCoord { q: q as i32, r: (r + 1) as i32 },
    ]
}

impl HexCoord {
    pub fn new(q: i32, r: i32) -> (c: HexCoord)
        ensures
            c == (HexCoord { q, r }),
    {
        HexCoord { q, r }
    }

    /// The third cube coordinate, `-q - r`.
    pub fn s(&self) -> (s: i32)
        requires
            i32::MIN <= -self.q - self.r <= i32::MAX,
        ensures
            s == -self.q - self.r,
    {
        (-(self.q as i64) - self.r as i64) as i32
    }

    /// Number of steps between this cell and `other`.
    pub fn distance(&self, other: &HexCoord) -> (d: i32)
        requires
            hex_distance(*self, *other) <= i32::MAX,
        ensures
            d == hex_distance(*self, *other),
    {
        let dq = self.q as i64 - other.q as i64;
        let dr = self.r as i64 - other.r as i64;
        let ds = (-(self.q as i64) - self.r as i64) - (-(other.q as i64) - other.r as i64);
        let total = abs_i64(dq) + abs_i64(dr) + abs_i64(ds);
        (total / 2) as i32
    }

    /// Same as `distance`.
    pub fn distance_to(&self, other: &HexCoord) -> (d: i32)
        requires
            hex_distance(*self, *other) <= i32::MAX,
        ensures
            d == hex_distance(*self, *other),
    {
        self.distance(other)
    }

    /// The six adjacent cells, counter-clockwise from the `+q` direction.
    pub fn neighbors(&self) -> (v: Vec<HexCoord>)
        requires
            i32::MIN < self.q < i32::MAX,
            i32::MIN < self.r < i32::MAX,
        ensures
            v@ == neighbor_cells(*self),
    {
        let v = vec![
            HexCoord::new(self.q + 1, self.r),
            HexCoord::new(self.q + 1, self.r - 1),
            HexCoord::new(self.q, self.r - 1),
            HexCoord::new(self.q - 1, self.r),
            HexCoord::new(self.q - 1, self.r + 1),
            HexCoord::new(self.q, self.r + 1),
        ];
        assert(v@ =~= neighbor_cells(*self));
        v
    }
}

/// A cell as the server writes it.
#[derive(Clone, Copy, Debug, PartialEq, Eq, Structural)]
pub struct ApiHex {
    pub q: i32,
    pub r: i32,
}

pub open spec fn hex_of(h: ApiHex) -> HexCoord {
    HexCoord { q: h.q, r: h.r }
}

pub open spec fn hexes_of(s: Seq<ApiHex>) -> Seq<HexCoord> {
    s.map_values(|h: ApiHex| hex_of(h))
}

impl ApiHex {
    pub fn to_coord(&self) -> (c: HexCoord)
        ensures
            c == hex_of(*self),
    {
        HexCoord { q: self.q, r: self.r }
    }

    pub fn from_coord(c: HexCoord) -> (h: ApiHex)
        ensures
            h == (ApiHex { q: c.q, r: c.r }),
    {
        ApiHex { q: c.q, r: c.r }
    }
}

/// Converts a list of server cells, keeping their order.
pub fn coords_of(hexes: &Vec<ApiHex>) -> (v: Vec<HexCoord>)
    ensures
        v@ == hexes_of(hexes@),
{
    let mut v: Vec<HexCoord> = Vec::new();
    let mut i: usize = 0;
    while i < hexes.len()
        invariant
            i <= hexes@.len(),
            v@ == hexes_of(hexes@.subrange(0, i as int)),
        decreases hexes@.len() - i,
    {
        v.push(hexes[i].to_coord());
        proof {
            assert(hexes@.subrange(0, i + 1) == hexes@.subrange(0, i as int).push(hexes@[i as int]));
        }
        i = i + 1;
    }
    proof {
        assert(hexes@.subrange(0, hexes@.len() as int) == hexes@);
    }
    v
}

/// A path of cells in the server's form.
pub open spec fn api_path(path: Seq<HexCoord>) -> Seq<ApiHex> {
    path.map_values(|c: HexCoord| ApiHex { q: c.q, r: c.r })
}

/// Converts a path of cells into the server's form, keeping its order.
pub fn api_path_of(path: &Vec<HexCoord>) -> (v: Vec<ApiHex>)
    ensures
        v@ == api_path(path@),
{
    let mut v: Vec<ApiHex> = Vec::new();
    let mut i: usize = 0;
    while i < path.len()
        invariant
            i <= path@.len(),
            v@.len() == i,
            forall|j: int|
                0 <= j < i ==> #[trigger] v@[j] == (ApiHex { q: path@[j].q, r: path@[j].r }),
        decreases path@.len() - i,
    {
        v.push(ApiHex::from_coord(path[i]));
        i = i + 1;
    }
    assert(v@ =~= api_path(path@));
    v
}

/// Kinds of ant.
#[derive(Clone, Copy, Debug, PartialEq, Eq, Hash, Structural)]
pub enum AntType {
    Worker,
    Soldier,
    Scout,
}

pub open spec fn ant_type_code(v: i32) -> Option<AntType> {
    if v == 0 {
        Some(AntType::Worker)
    } else if v == 1 {
        Some(AntType::Soldier)
    } else if v == 2 {
        Some(AntType::Scout)
    } else {
        None
    }
}

/// The ant type of a server code, `Worker` where the code is unknown.
pub open spec fn ant_type_or_worker(v: i32) -> AntType {
    match ant_type_code(v) {
        Some(t) => t,
        None => AntType::Worker,
    }
}

impl AntType {
    pub fn from_api(value: i32) -> (r: Option<AntType>)
        ensures
            r == ant_type_code(value),
    {
        match value {
            0 => Some(AntType::Worker),
            1 => Some(AntType::Soldier),
            2 => Some(AntType::Scout),
            _ => None,
        }
    }

    pub fn to_api(&self) -> (r: i32)
        ensures
            ant_type_code(r) == Some(*self),
    {
        match self {
            AntType::Worker => 0,
            AntType::Soldier => 1,
            AntType::Scout => 2,
        }
    }

    pub fn health(&self) -> (r: i32)
        ensures
            r == (match *self {
                AntType::Worker => 130i32,
                AntType::Soldier => 180i32,
                AntType::Scout => 80i32,
            }),
    {
        match self {
            AntType::Worker => 130,
            AntType::Soldier => 180,
            AntType::Scout => 80,
        }
    }

    pub fn attack(&self) -> (r: i32)
        ensures
            r == (match *self {
                AntType::Worker => 30i32,
                AntType::Soldier => 70i32,
                AntType::Scout => 20i32,
            }),
    {
        match self {
            AntType::Worker => 30,
            AntType::Soldier => 70,
            AntType::Scout => 20,
        }
    }

    pub fn capacity(&self) -> (r: i32)
        ensures
            r == (match *self {
                AntType::Worker => 8i32,
                AntType::Soldier => 2i32,
                AntType::Scout => 2i32,
            }),
    {
        match self {
            AntType::Worker => 8,
            AntType::Soldier => 2,
            AntType::Scout => 2,
        }
    }

    pub fn view_range(&self) -> (r: i32)
        ensures
            r == (match *self {
                AntType::Worker => 1i32,
                AntType::Soldier => 1i32,
                AntType::Scout => 4i32,
            }),
    {
        match self {
            AntType::Worker => 1,
            AntType::Soldier => 1,
            AntType::Scout => 4,
        }
    }

    pub fn speed(&self) -> (r: i32)
        ensures
            r == (match *self {
                AntType::Worker => 5i32,
                AntType::Soldier => 4i32,
                AntType::Scout => 7i32,
            }),
    {
        match self {
            AntType::Worker => 5,
            AntType::Soldier => 4,
            AntType::Scout => 7,
        }
    }
}

/// Kinds of food.
#[derive(Clone, Copy, Debug, PartialEq, Eq, Hash, Structural)]
pub enum FoodType {
    Apple,
    Bread,
    Nectar,
}

pub open spec fn food_type_code(v: i32) -> Option<FoodType> {
    if v == 1 {
        Some(FoodType::Apple)
    } else if v == 2 {
        Some(FoodType::Bread)
    } else if v == 3 {
        Some(FoodType::Nectar)
    } else {
        None
    }
}

/// The food type of a server code, `Apple` where the code is unknown.
pub open spec fn food_type_or_apple(v: i32) -> FoodType {
    match food_type_code(v) {
        Some(t) => t,
        None => FoodType::Apple,
    }
}

impl FoodType {
    pub fn from_api(value: i32) -> (r: Option<FoodType>)
        ensures
            r == food_type_code(value),
    {
        match value {
            1 => Some(FoodType::Apple),
            2 => Some(FoodType::Bread),
            3 => Some(FoodType::Nectar),
            _ => None,
        }
    }

    pub fn to_api(&self) -> (r: i32)
        ensures
            food_type_code(r) == Some(*self),
    {
        match self {
            FoodType::Apple => 1,
            FoodType::Bread => 2,
            FoodType::Nectar => 3,
        }
    }

    pub fn calories(&self) -> (r: i32)
        ensures
            r == (match *self {
                FoodType::Apple => 10i32,
                FoodType::Bread => 20i32,
                FoodType::Nectar => 60i32,
            }),
    {
        match self {
            FoodType::Apple => 10,
            FoodType::Bread => 20,
            FoodType::Nectar => 60,
        }
    }
}

/// Kinds of terrain.
#[derive(Clone, Copy, Debug, PartialEq, Eq, Hash, Structural)]
pub enum TileType {
    Anthill,
    Plain,
    Dirt,
    Acid,
    Rock,
}

pub open spec fn tile_type_code(v: i32) -> Option<TileType> {
    if v == 1 {
        Some(TileType::Anthill)
    } else if v == 2 {
        Some(TileType::Plain)
    } else if v == 3 {
        Some(TileType::Dirt)
    } else if v == 4 {
        Some(TileType::Acid)
    } else if v == 5 {
        Some(TileType::Rock)
    } else {
        None
    }
}

/// The terrain of a server code, `Plain` where the code is unknown.
pub open spec fn tile_type_or_plain(v: i32) -> TileType {
    match tile_type_code(v) {
        Some(t) => t,
        None => TileType::Plain,
    }
}

impl TileType {
    pub fn from_api(value: i32) -> (r: Option<TileType>)
        ensures
            r == tile_type_code(value),
    {
        match value {
            1 => Some(TileType::Anthill),
            2 => Some(TileType::Plain),
            3 => Some(TileType::Dirt),
            4 => Some(TileType::Acid),
            5 => Some(TileType::Rock),
            _ => None,
        }
    }

    pub fn to_api(&self) -> (r: i32)
        ensures
            tile_type_code(r) == Some(*self),
    {
        match self {
            TileType::Anthill => 1,
            TileType::Plain => 2,
            TileType::Dirt => 3,
            TileType::Acid => 4,
            TileType::Rock => 5,
        }
    }

    pub fn is_passable(&self) -> (r: bool)
        ensures
            r == (*self != TileType::Rock),
    {
        match self {
            TileType::Rock => false,
            _ => true,
        }
    }

    /// Cost of entering a tile of this kind; `None` where it cannot be entered.
    pub fn movement_cost(&self) -> (r: Option<i32>)
        ensures
            r == (match *self {
                TileType::Dirt => Some(2i32),
                TileType::Rock => None,
                _ => Some(1i32),
            }),
    {
        match self {
            TileType::Anthill => Some(1),
            TileType::Plain => Some(1),
            TileType::Dirt => Some(2),
            TileType::Acid => Some(1),
            TileType::Rock => None,
        }
    }

    pub fn damage(&self) -> (r: i32)
        ensures
            r == (if *self == TileType::Acid {
                20i32
            } else {
                0i32
            }),
    {
        match self {
            TileType::Acid => 20,
            _ => 0,
        }
    }
}

} // verus!
