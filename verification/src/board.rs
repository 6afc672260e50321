//! The static board: 40 ordered tiles, colour groups, the two card decks,
//! and the rent formulas for railroads and utilities.

use vstd::prelude::*;

use crate::ext;
use crate::game::Player;

verus! {

/// The eight fixed street colour groups.
#[derive(Clone, Copy)]
pub enum Colour {
    Brown,
    LightBlue,
    Pink,
    Orange,
    Red,
    Yellow,
    Green,
    DarkBlue,
}

/// Shared capability of the three purchasable tile kinds: a fixed book cost.
pub trait GetCost {
    spec fn spec_cost(&self) -> int;

    fn get_cost(&self) -> (r: isize)
        ensures
            r as int == self.spec_cost(),
    ;
}

#[derive(Clone, Copy)]
pub struct Street {
    pub rent_prices: [isize; 6],
    pub cost: isize,
}

impl Street {
    pub fn new(cost: isize, rent_prices: [isize; 6]) -> (r: Street)
        ensures
            r == (Street { cost, rent_prices }),
    {
        Street { cost, rent_prices }
    }
}

impl GetCost for Street {
    open spec fn spec_cost(&self) -> int {
        self.cost as int
    }

    fn get_cost(&self) -> (r: isize) {
        self.cost
    }
}

#[derive(Clone, Copy)]
pub struct Railroad {
    pub cost: isize,
}

impl Railroad {
    pub fn new(cost: isize) -> (r: Railroad)
        ensures
            r == (Railroad { cost }),
    {
        Railroad { cost }
    }
}

impl GetCost for Railroad {
    open spec fn spec_cost(&self) -> int {
        self.cost as int
    }

    fn get_cost(&self) -> (r: isize) {
        self.cost
    }
}

#[derive(Clone, Copy)]
pub struct Utility {
    pub cost: isize,
}

impl Utility {
    pub fn new(cost: isize) -> (r: Utility)
        ensures
            r == (Utility { cost }),
    {
        Utility { cost }
    }
}

impl GetCost for Utility {
    open spec fn spec_cost(&self) -> int {
        self.cost as int
    }

    fn get_cost(&self) -> (r: isize) {
        self.cost
    }
}

#[derive(Clone, Copy)]
pub enum TileType {
    Street(Street),
    Railroad(Railroad),
    Utility(Utility),
    Chance,
    Chest,
    TaxIncome,
    TaxLuxury,
    Go,
    Free,
    JailVisit,
    GoToJail,
}

#[derive(Clone, Copy)]
pub struct Tile {
    pub name: &'static str,
    pub inner: TileType,
}

impl Tile {
    pub fn new(name: &'static str, inner: TileType) -> (r: Tile)
        ensures
            r.name == name,
            r.inner == inner,
    {
        Tile { name, inner }
    }
}

/// The kind (and, for purchasable tiles, cost and rent data) of each of the
/// 40 board tiles.
pub open spec fn tile_kind(id: int) -> TileType {
    if id == 0 {
        TileType::Go
    } else if id == 1 {
        TileType::Street(Street { cost: 60, rent_prices: [2, 10, 30, 90, 160, 250] })
    } else if id == 2 {
        TileType::Chest
    } else if id == 3 {
        TileType::Street(Street { cost: 60, rent_prices: [4, 20, 60, 180, 320, 450] })
    } else if id == 4 {
        TileType::TaxIncome
    } else if id == 5 {
        TileType::Railroad(Railroad { cost: 200 })
    } else if id == 6 {
        TileType::Street(Street { cost: 100, rent_prices: [6, 30, 90, 270, 400, 550] })
    } else if id == 7 {
        TileType::Chance
    } else if id == 8 {
        TileType::Street(Street { cost: 100, rent_prices: [6, 30, 90, 270, 400, 550] })
    } else if id == 9 {
        TileType::Street(Street { cost: 120, rent_prices: [8, 40, 100, 300, 450, 600] })
    } else if id == 10 {
        TileType::JailVisit
    } else if id == 11 {
        TileType::Street(Street { cost: 140, rent_prices: [10, 50, 150, 450, 625, 750] })
    } else if id == 12 {
        TileType::Utility(Utility { cost: 150 })
    } else if id == 13 {
        TileType::Street(Street { cost: 140, rent_prices: [10, 50, 150, 450, 625, 750] })
    } else if id == 14 {
        TileType::Street(Street { cost: 160, rent_prices: [12, 60, 180, 500, 700, 900] })
    } else if id == 15 {
        TileType::Railroad(Railroad { cost: 200 })
    } else if id == 16 {
        TileType::Street(Street { cost: 180, rent_prices: [14, 70, 200, 550, 750, 950] })
    } else if id == 17 {
        TileType::Chest
    } else if id == 18 {
        TileType::Street(Street { cost: 180, rent_prices: [14, 70, 200, 550, 750, 950] })
    } else if id == 19 {
        TileType::Street(Street { cost: 200, rent_prices: [16, 80, 220, 600, 800, 1000] })
    } else if id == 20 {
        TileType::Free
    } else if id == 21 {
        TileType::Street(Street { cost: 220, rent_prices: [18, 90, 250, 700, 875, 1050] })
    } else if id == 22 {
        TileType::Chance
    } else if id == 23 {
        TileType::Street(Street { cost: 220, rent_prices: [18, 90, 250, 700, 875, 1050] })
    } else if id == 24 {
        TileType::Street(Street { cost: 220, rent_prices: [20, 100, 300, 750, 925, 1100] })
    } else if id == 25 {
        TileType::Railroad(Railroad { cost: 200 })
    } else if id == 26 {
        TileType::Street(Street { cost: 260, rent_prices: [22, 110, 330, 800, 975, 1150] })
    } else if id == 27 {
        TileType::Street(Street { cost: 260, rent_prices: [22, 110, 330, 800, 975, 1150] })
    } else if id == 28 {
        TileType::Utility(Utility { cost: 150 })
    } else if id == 29 {
        TileType::Street(Street { cost: 280, rent_prices: [24, 120, 360, 850, 1025, 1200] })
    } else if id == 30 {
        TileType::GoToJail
    } else if id == 31 {
        TileType::Street(Street { cost: 300, rent_prices: [26, 130, 390, 900, 1100, 1275] })
    } else if id == 32 {
        TileType::Street(Street { cost: 300, rent_prices: [26, 130, 390, 900, 1100, 1275] })
    } else if id == 33 {
        TileType::Chest
    } else if id == 34 {
        TileType::Street(Street { cost: 300, rent_prices: [28, 150, 450, 1000, 1200, 1400] })
    } else if id == 35 {
        TileType::Railroad(Railroad { cost: 200 })
    } else if id == 36 {
        TileType::Chance
    } else if id == 37 {
        TileType::Street(Street { cost: 350, rent_prices: [35, 175, 500, 1100, 1300, 1500] })
    } else if id == 38 {
        TileType::TaxLuxury
    } else {
        TileType::Street(Street { cost: 400, rent_prices: [50, 100, 600, 1400, 1700, 2000] })
    }
}

/// The display name of each of the 40 board tiles.
pub open spec fn tile_name(id: int) -> Seq<char> {
    if id == 0 {
        "GO"@
    } else if id == 1 {
        "Old Kent Road"@
    } else if id == 2 {
        "Community chest"@
    } else if id == 3 {
        "Whitechapel Road"@
    } else if id == 4 {
        "Income Tax"@
    } else if id == 5 {
        "Kings Cross Station"@
    } else if id == 6 {
        "The Angel, Islington"@
    } else if id == 7 {
        "Chance"@
    } else if id == 8 {
        "Euston Road"@
    } else if id == 9 {
        "Pentonville Road"@
    } else if id == 10 {
        "Jail visiting"@
    } else if id == 11 {
        "Pall Mall"@
    } else if id == 12 {
        "Electric Company"@
    } else if id == 13 {
        "Whitehall"@
    } else if id == 14 {
        "Northumberland Avenue"@
    } else if id == 15 {
        "Marylebone Station"@
    } else if id == 16 {
        "Bow Street"@
    } else if id == 17 {
        "Community Chest"@
    } else if id == 18 {
        "Marlborough Street"@
    } else if id == 19 {
        "Vine Street"@
    } else if id == 20 {
        "Free Parking"@
    } else if id == 21 {
        "Strand"@
    } else if id == 22 {
        "Chance"@
    } else if id == 23 {
        "Fleet Street"@
    } else if id == 24 {
        "Trafalgar Square"@
    } else if id == 25 {
        "Fenchurch St Station"@
    } else if id == 26 {
        "Leicester Square"@
    } else if id == 27 {
        "Coventry Street"@
    } else if id == 28 {
        "Water Works"@
    } else if id == 29 {
        "Piccadilly"@
    } else if id == 30 {
        "Go To Jail"@
    } else if id == 31 {
        "Regent Street"@
    } else if id == 32 {
        "Oxford Street"@
    } else if id == 33 {
        "Community Chest"@
    } else if id == 34 {
        "Bond Street"@
    } else if id == 35 {
        "Liverpool Street Station"@
    } else if id == 36 {
        "Chance"@
    } else if id == 37 {
        "Park Lane"@
    } else if id == 38 {
        "Super Tax"@
    } else {
        "Mayfair"@
    }
}

/// The tile at `id`, as a value.
pub fn board_tile(id: usize) -> (t: Tile)
    requires
        id < 40,
    ensures
        t.name@ == tile_name(id as int),
        t.inner == tile_kind(id as int),
{
    match id {
        0 => Tile::new("GO", TileType::Go),
        1 => Tile::new(
            "Old Kent Road",
            TileType::Street(Street::new(60, [2, 10, 30, 90, 160, 250])),
        ),
        2 => Tile::new("Community chest", TileType::Chest),
        3 => Tile::new(
            "Whitechapel Road",
            TileType::Street(Street::new(60, [4, 20, 60, 180, 320, 450])),
        ),
        4 => Tile::new("Income Tax", TileType::TaxIncome),
        5 => Tile::new("Kings Cross Station", TileType::Railroad(Railroad::new(200))),
        6 => Tile::new(
            "The Angel, Islington",
            TileType::Street(Street::new(100, [6, 30, 90, 270, 400, 550])),
        ),
        7 => Tile::new("Chance", TileType::Chance),
        8 => Tile::new(
            "Euston Road",
            TileType::Street(Street::new(100, [6, 30, 90, 270, 400, 550])),
        ),
        9 => Tile::new(
            "Pentonville Road",
            TileType::Street(Street::new(120, [8, 40, 100, 300, 450, 600])),
        ),
        10 => Tile::new("Jail visiting", TileType::JailVisit),
        11 => Tile::new(
            "Pall Mall",
            TileType::Street(Street::new(140, [10, 50, 150, 450, 625, 750])),
        ),
        12 => Tile::new("Electric Company", TileType::Utility(Utility::new(150))),
        13 => Tile::new(
            "Whitehall",
            TileType::Street(Street::new(140, [10, 50, 150, 450, 625, 750])),
        ),
        14 => Tile::new(
            "Northumberland Avenue",
            TileType::Street(Street::new(160, [12, 60, 180, 500, 700, 900])),
        ),
        15 => Tile::new("Marylebone Station", TileType::Railroad(Railroad::new(200))),
        16 => Tile::new(
            "Bow Street",
            TileType::Street(Street::new(180, [14, 70, 200, 550, 750, 950])),
        ),
        17 => Tile::new("Community Chest", TileType::Chest),
        18 => Tile::new(
            "Marlborough Street",
            TileType::Street(Street::new(180, [14, 70, 200, 550, 750, 950])),
        ),
        19 => Tile::new(
            "Vine Street",
            TileType::Street(Street::new(200, [16, 80, 220, 600, 800, 1000])),
        ),
        20 => Tile::new("Free Parking", TileType::Free),
        21 => Tile::new(
            "Strand",
            TileType::Street(Street::new(220, [18, 90, 250, 700, 875, 1050])),
        ),
        22 => Tile::new("Chance", TileType::Chance),
        23 => Tile::new(
            "Fleet Street",
            TileType::Street(Street::new(220, [18, 90, 250, 700, 875, 1050])),
        ),
        24 => Tile::new(
            "Trafalgar Square",
            TileType::Street(Street::new(220, [20, 100, 300, 750, 925, 1100])),
        ),
        25 => Tile::new("Fenchurch St Station", TileType::Railroad(Railroad::new(200))),
        26 => Tile::new(
            "Leicester Square",
            TileType::Street(Street::new(260, [22, 110, 330, 800, 975, 1150])),
        ),
        27 => Tile::new(
            "Coventry Street",
            TileType::Street(Street::new(260, [22, 110, 330, 800, 975, 1150])),
        ),
        28 => Tile::new("Water Works", TileType::Utility(Utility::new(150))),
        29 => Tile::new(
            "Piccadilly",
            TileType::Street(Street::new(280, [24, 120, 360, 850, 1025, 1200])),
        ),
        30 => Tile::new("Go To Jail", TileType::GoToJail),
        31 => Tile::new(
            "Regent Street",
            TileType::Street(Street::new(300, [26, 130, 390, 900, 1100, 1275])),
        ),
        32 => Tile::new(
            "Oxford Street",
            TileType::Street(Street::new(300, [26, 130, 390, 900, 1100, 1275])),
        ),
        33 => Tile::new("Community Chest", TileType::Chest),
        34 => Tile::new(
            "Bond Street",
            TileType::Street(Street::new(300, [28, 150, 450, 1000, 1200, 1400])),
        ),
        35 => Tile::new("Liverpool Street Station", TileType::Railroad(Railroad::new(200))),
        36 => Tile::new("Chance", TileType::Chance),
        37 => Tile::new(
            "Park Lane",
            TileType::Street(Street::new(350, [35, 175, 500, 1100, 1300, 1500])),
        ),
        38 => Tile::new("Super Tax", TileType::TaxLuxury),
        _ => Tile::new(
            "Mayfair",
            TileType::Street(Street::new(400, [50, 100, 600, 1400, 1700, 2000])),
        ),
    }
}

/// Whether a tile can be bought: Street, Railroad or Utility.
pub open spec fn purchasable(id: int) -> bool {
    match tile_kind(id) {
        TileType::Street(_) => true,
        TileType::Railroad(_) => true,
        TileType::Utility(_) => true,
        _ => false,
    }
}

/// The fixed book cost of a purchasable tile.
pub open spec fn tile_cost(id: int) -> int {
    match tile_kind(id) {
        TileType::Street(s) => s.cost as int,
        TileType::Railroad(r) => r.cost as int,
        TileType::Utility(u) => u.cost as int,
        _ => 0,
    }
}

/// The rent ladder entry of a street tile at a given house count.
pub open spec fn street_rent(id: int, houses: int) -> int {
    match tile_kind(id) {
        TileType::Street(s) => s.rent_prices[houses] as int,
        _ => 0,
    }
}

/// Whether `o` (a dense ownership map: index = tile id) holds tile `id`.
pub open spec fn owns_tile(o: Seq<Option<u8>>, id: int) -> bool {
    0 <= id < o.len() && o[id] is Some
}

/// The caller's count of the four fixed railroad tiles.
pub open spec fn railroad_count(o: Seq<Option<u8>>) -> int {
    (if owns_tile(o, 5) {
        1int
    } else {
        0int
    }) + (if owns_tile(o, 15) {
        1int
    } else {
        0int
    }) + (if owns_tile(o, 25) {
        1int
    } else {
        0int
    }) + (if owns_tile(o, 35) {
        1int
    } else {
        0int
    })
}

/// Railroad rent: 25 doubled for each railroad owned beyond the first.
pub open spec fn railroad_rent(count: int) -> int {
    if count <= 1 {
        25
    } else if count == 2 {
        50
    } else if count == 3 {
        100
    } else {
        200
    }
}

/// Utility rent on a dice total: ten times the total when both utilities are
/// owned, four times otherwise.
pub open spec fn utility_rent(o: Seq<Option<u8>>, total: int) -> int {
    if owns_tile(o, 12) && owns_tile(o, 28) {
        total * 10
    } else {
        total * 4
    }
}

impl Railroad {
    /// Rent owed to `player` on one of their railroads.
    ///
    /// The formula `25 * 2^(count - 1)` is meaningful only when the player
    /// owns at least one railroad, which the caller must guarantee.
    pub fn calculate_rent(player: &Player) -> (r: isize)
        requires
            railroad_count(player.ownership@) >= 1,
        ensures
            r as int == railroad_rent(railroad_count(player.ownership@)),
    {
        let mut count: u32 = 0;
        if contains_key(&player.ownership, 5) {
            count = count + 1;
        }
        if contains_key(&player.ownership, 15) {
            count = count + 1;
        }
        if contains_key(&player.ownership, 25) {
            count = count + 1;
        }
        if contains_key(&player.ownership, 35) {
            count = count + 1;
        }
        if count <= 1 {
            25
        } else if count == 2 {
            50
        } else if count == 3 {
            100
        } else {
            200
        }
    }
}

impl Utility {
    /// Rent owed to `player` on a utility, for a known dice total.
    pub fn calculate_rent_with(player: &Player, roll_0: usize, roll_1: usize) -> (r: isize)
        requires
            1 <= roll_0 <= 6,
            1 <= roll_1 <= 6,
        ensures
            r as int == utility_rent(player.ownership@, roll_0 + roll_1),
    {
        let rolled: isize = (roll_0 + roll_1) as isize;
        if contains_key(&player.ownership, 12) && contains_key(&player.ownership, 28) {
            rolled * 10
        } else {
            rolled * 4
        }
    }

    /// Rent owed to `player` on a utility: the player throws fresh dice.
    pub fn calculate_rent(player: &Player) -> (r: isize)
        ensures
            exists|total: int|
                2 <= total <= 12 && r as int == #[trigger] utility_rent(
                    player.ownership@,
                    total,
                ),
    {
        let roll_0: usize = ext::roll_die();
        let roll_1: usize = ext::roll_die();
        let r: isize = Utility::calculate_rent_with(player, roll_0, roll_1);
        proof {
            assert(r as int == utility_rent(player.ownership@, roll_0 as int + roll_1 as int));
        }
        r
    }
}

/// Whether the dense ownership map holds tile `id`.
pub(crate) fn contains_key(o: &Vec<Option<u8>>, id: usize) -> (r: bool)
    ensures
        r == owns_tile(o@, id as int),
{
    id < o.len() && o[id].is_some()
}

/// The colour group and per-house building price of a street tile, from the
/// fixed pricing table. One street (tile 13) is absent from the table, as is
/// every non-street tile.
pub open spec fn spec_colour_price(id: int) -> Option<(Colour, isize)> {
    if id == 1 || id == 3 {
        Some((Colour::Brown, 100isize))
    } else if id == 6 || id == 8 || id == 9 {
        Some((Colour::LightBlue, 150isize))
    } else if id == 11 || id == 14 || id == 15 {
        Some((Colour::Pink, 300isize))
    } else if id == 16 || id == 18 || id == 19 {
        Some((Colour::Orange, 300isize))
    } else if id == 21 || id == 23 || id == 24 {
        Some((Colour::Red, 450isize))
    } else if id == 26 || id == 27 || id == 29 {
        Some((Colour::Yellow, 450isize))
    } else if id == 31 || id == 32 || id == 34 {
        Some((Colour::Green, 600isize))
    } else if id == 37 || id == 39 {
        Some((Colour::DarkBlue, 400isize))
    } else {
        None
    }
}

pub(crate) fn colour_price(id: usize) -> (r: Option<(Colour, isize)>)
    ensures
        r == spec_colour_price(id as int),
{
    match id {
        1 | 3 => Some((Colour::Brown, 100)),
        6 | 8 | 9 => Some((Colour::LightBlue, 150)),
        11 | 14 | 15 => Some((Colour::Pink, 300)),
        16 | 18 | 19 => Some((Colour::Orange, 300)),
        21 | 23 | 24 => Some((Colour::Red, 450)),
        26 | 27 | 29 => Some((Colour::Yellow, 450)),
        31 | 32 | 34 => Some((Colour::Green, 600)),
        37 | 39 => Some((Colour::DarkBlue, 400)),
        _ => None,
    }
}

/// Whether `o` holds every tile of a colour group (the fixed membership
/// lists; the pink group includes tile 15).
pub open spec fn spec_group_owned(o: Seq<Option<u8>>, c: Colour) -> bool {
    match c {
        Colour::Brown => owns_tile(o, 1) && owns_tile(o, 3),
        Colour::LightBlue => owns_tile(o, 6) && owns_tile(o, 8) && owns_tile(o, 9),
        Colour::Pink => owns_tile(o, 11) && owns_tile(o, 14) && owns_tile(o, 15),
        Colour::Orange => owns_tile(o, 16) && owns_tile(o, 18) && owns_tile(o, 19),
        Colour::Red => owns_tile(o, 21) && owns_tile(o, 23) && owns_tile(o, 24),
        Colour::Yellow => owns_tile(o, 26) && owns_tile(o, 27) && owns_tile(o, 29),
        Colour::Green => owns_tile(o, 31) && owns_tile(o, 32) && owns_tile(o, 34),
        Colour::DarkBlue => owns_tile(o, 37) && owns_tile(o, 39),
    }
}

pub(crate) fn group_owned(o: &Vec<Option<u8>>, c: Colour) -> (r: bool)
    ensures
        r == spec_group_owned(o@, c),
{
    match c {
        Colour::Brown => contains_key(o, 1) && contains_key(o, 3),
        Colour::LightBlue => contains_key(o, 6) && contains_key(o, 8) && contains_key(o, 9),
        Colour::Pink => contains_key(o, 11) && contains_key(o, 14) && contains_key(o, 15),
        Colour::Orange => contains_key(o, 16) && contains_key(o, 18) && contains_key(o, 19),
        Colour::Red => contains_key(o, 21) && contains_key(o, 23) && contains_key(o, 24),
        Colour::Yellow => contains_key(o, 26) && contains_key(o, 27) && contains_key(o, 29),
        Colour::Green => contains_key(o, 31) && contains_key(o, 32) && contains_key(o, 34),
        Colour::DarkBlue => contains_key(o, 37) && contains_key(o, 39),
    }
}

/// The tagged effect of an event card.
#[derive(Clone, Copy)]
pub enum CardEffect {
    Money(isize),
    Position(usize),
    NearestStation,
    NearestUtility,
    GetOutOfJail,
    GoBack3,
    GoToJail,
    PayAll(isize),
    Repairs,
    Assession,
}

/// An event card: narration text plus a tagged effect.
#[derive(Clone, Copy)]
pub struct Card {
    pub note: &'static str,
    pub effect: CardEffect,
}

pub ghost struct CardV {
    pub note: Seq<char>,
    pub effect: CardEffect,
}

impl View for Card {
    type V = CardV;

    open spec fn view(&self) -> CardV {
        CardV { note: self.note@, effect: self.effect }
    }
}

impl Card {
    pub fn new(note: &'static str, effect: CardEffect) -> (r: Card)
        ensures
            r@ == (CardV { note: note@, effect }),
    {
        Card { note, effect }
    }
}

/// The sixteen fixed Chance cards; a draw picks uniformly, with replacement.
pub open spec fn spec_chance_deck() -> Seq<CardV> {
    seq![
        CardV { note: "Advance to Go"@, effect: CardEffect::Position(0) },
        CardV { note: "Advance to Trafalgar Square"@, effect: CardEffect::Position(24) },
        CardV { note: "Advance to Mayfair"@, effect: CardEffect::Position(39) },
        CardV { note: "Advance to Pall Mall"@, effect: CardEffect::Position(11) },
        CardV { note: "Advance to the nearest Station. If unowned, you may buy it from the Bank. If owned, pay wonder twice the rental to which they are otherwise entitled."@, effect: CardEffect::NearestStation },
        CardV { note: "Advance to the nearest Station. If unowned, you may buy it from the Bank. If owned, pay wonder twice the rental to which they are otherwise entitled."@, effect: CardEffect::NearestStation },
        CardV { note: "Advance token to nearest Utility. If unowned, you may buy it from the Bank. If owned, throw dice and pay owner a total ten times amount thrown."@, effect: CardEffect::NearestUtility },
        CardV { note: "Bank pays you dividend of £50"@, effect: CardEffect::Money(50) },
        CardV { note: "Get Out of Jail Free"@, effect: CardEffect::GetOutOfJail },
        CardV { note: "Go Back 3 Spaces"@, effect: CardEffect::GoBack3 },
        CardV { note: "Go to Jail. Go directly to Jail, do not pass Go, do not collect £200"@, effect: CardEffect::GoToJail },
        CardV { note: "Make general repairs on all your property. For each house pay £25. For each hotel pay £100"@, effect: CardEffect::Repairs },
        CardV { note: "Speeding fine £15"@, effect: CardEffect::Money(-15isize) },
        CardV { note: "Take a trip to Kings Cross Station"@, effect: CardEffect::Position(5) },
        CardV { note: "You have been elected Chairman of the Board. Pay each player £50"@, effect: CardEffect::PayAll(50) },
        CardV { note: "Your building loan matures. Collect £150"@, effect: CardEffect::Money(150) },
    ]
}

/// The sixteen fixed Community Chest cards.
pub open spec fn spec_chest_deck() -> Seq<CardV> {
    seq![
        CardV { note: "Advance to Go"@, effect: CardEffect::Position(0) },
        CardV { note: "Bank error in your favour. Collect £200"@, effect: CardEffect::Money(200) },
        CardV { note: "Doctor’s fee. Pay £50"@, effect: CardEffect::Money(-50isize) },
        CardV { note: "From sale of stock you get £50"@, effect: CardEffect::Money(50) },
        CardV { note: "Get Out of Jail Free"@, effect: CardEffect::GetOutOfJail },
        CardV { note: "Go to Jail. Go directly to Jail, do not pass Go, do not collect £200"@, effect: CardEffect::GoToJail },
        CardV { note: "Holiday fund matures. Receive £100"@, effect: CardEffect::Money(100) },
        CardV { note: "Income tax refund. Collect £20"@, effect: CardEffect::Money(20) },
        CardV { note: "It is your birthday. Collect £10 from every player"@, effect: CardEffect::PayAll(-10isize) },
        CardV { note: "Life insurance matures. Collect £100"@, effect: CardEffect::Money(100) },
        CardV { note: "Pay hospital fees of £100"@, effect: CardEffect::Money(-100isize) },
        CardV { note: "Pay school fees of £50"@, effect: CardEffect::Money(-50isize) },
        CardV { note: "Receive £25 consultancy fee"@, effect: CardEffect::Money(-25isize) },
        CardV { note: "You are assessed for street repairs. £40 per house. £115 per hotel"@, effect: CardEffect::Assession },
        CardV { note: "You have won second prize in a beauty contest. Collect £10"@, effect: CardEffect::Money(10) },
        CardV { note: "You inherit £100"@, effect: CardEffect::Money(100) },
    ]
}

fn chance_deck() -> (v: Vec<Card>)
    ensures
        v@.len() == 16,
        forall|i: int| 0 <= i < 16 ==> #[trigger] v@[i]@ == spec_chance_deck()[i],
{
    let mut v: Vec<Card> = Vec::new();
    v.push(Card::new("Advance to Go", CardEffect::Position(0)));
    v.push(Card::new("Advance to Trafalgar Square", CardEffect::Position(24)));
    v.push(Card::new("Advance to Mayfair", CardEffect::Position(39)));
    v.push(Card::new("Advance to Pall Mall", CardEffect::Position(11)));
    v.push(Card::new("Advance to the nearest Station. If unowned, you may buy it from the Bank. If owned, pay wonder twice the rental to which they are otherwise entitled.", CardEffect::NearestStation));
    v.push(Card::new("Advance to the nearest Station. If unowned, you may buy it from the Bank. If owned, pay wonder twice the rental to which they are otherwise entitled.", CardEffect::NearestStation));
    v.push(Card::new("Advance token to nearest Utility. If unowned, you may buy it from the Bank. If owned, throw dice and pay owner a total ten times amount thrown.", CardEffect::NearestUtility));
    v.push(Card::new("Bank pays you dividend of £50", CardEffect::Money(50)));
    v.push(Card::new("Get Out of Jail Free", CardEffect::GetOutOfJail));
    v.push(Card::new("Go Back 3 Spaces", CardEffect::GoBack3));
    v.push(Card::new("Go to Jail. Go directly to Jail, do not pass Go, do not collect £200", CardEffect::GoToJail));
    v.push(Card::new("Make general repairs on all your property. For each house pay £25. For each hotel pay £100", CardEffect::Repairs));
    v.push(Card::new("Speeding fine £15", CardEffect::Money(-15)));
    v.push(Card::new("Take a trip to Kings Cross Station", CardEffect::Position(5)));
    v.push(Card::new("You have been elected Chairman of the Board. Pay each player £50", CardEffect::PayAll(50)));
    v.push(Card::new("Your building loan matures. Collect £150", CardEffect::Money(150)));
    v
}

fn chest_deck() -> (v: Vec<Card>)
    ensures
        v@.len() == 16,
        forall|i: int| 0 <= i < 16 ==> #[trigger] v@[i]@ == spec_chest_deck()[i],
{
    let mut v: Vec<Card> = Vec::new();
    v.push(Card::new("Advance to Go", CardEffect::Position(0)));
    v.push(Card::new("Bank error in your favour. Collect £200", CardEffect::Money(200)));
    v.push(Card::new("Doctor’s fee. Pay £50", CardEffect::Money(-50)));
    v.push(Card::new("From sale of stock you get £50", CardEffect::Money(50)));
    v.push(Card::new("Get Out of Jail Free", CardEffect::GetOutOfJail));
    v.push(Card::new("Go to Jail. Go directly to Jail, do not pass Go, do not collect £200", CardEffect::GoToJail));
    v.push(Card::new("Holiday fund matures. Receive £100", CardEffect::Money(100)));
    v.push(Card::new("Income tax refund. Collect £20", CardEffect::Money(20)));
    v.push(Card::new("It is your birthday. Collect £10 from every player", CardEffect::PayAll(-10)));
    v.push(Card::new("Life insurance matures. Collect £100", CardEffect::Money(100)));
    v.push(Card::new("Pay hospital fees of £100", CardEffect::Money(-100)));
    v.push(Card::new("Pay school fees of £50", CardEffect::Money(-50)));
    v.push(Card::new("Receive £25 consultancy fee", CardEffect::Money(-25)));
    v.push(Card::new("You are assessed for street repairs. £40 per house. £115 per hotel", CardEffect::Assession));
    v.push(Card::new("You have won second prize in a beauty contest. Collect £10", CardEffect::Money(10)));
    v.push(Card::new("You inherit £100", CardEffect::Money(100)));
    v
}

/// A uniform draw from the Chance deck.
pub fn chance_roll() -> (r: Card)
    ensures
        exists|i: int| 0 <= i < 16 && #[trigger] spec_chance_deck()[i] == r@,
{
    let deck: Vec<Card> = chance_deck();
    let card: Card = ext::pick_card(&deck);
    proof {
        let i = choose|i: int| 0 <= i < deck@.len() && deck@[i] == card;
        assert(spec_chance_deck()[i] == card@);
    }
    card
}

/// A uniform draw from the Community Chest deck.
pub fn chest_roll() -> (r: Card)
    ensures
        exists|i: int| 0 <= i < 16 && #[trigger] spec_chest_deck()[i] == r@,
{
    let deck: Vec<Card> = chest_deck();
    let card: Card = ext::pick_card(&deck);
    proof {
        let i = choose|i: int| 0 <= i < deck@.len() && deck@[i] == card;
        assert(spec_chest_deck()[i] == card@);
    }
    card
}

} // verus!
