//! The match itself: per-participant state, the turn state machine, and the
//! host-storable codec with its lazy auction resolution.

use vstd::prelude::*;
use vstd::pervasive::VecAdditionalExecFns;
use vstd::string::StringExecFns;

use crate::board;
use crate::board::owns_tile;
use crate::board::GetCost;
use crate::ext;
use crate::io::PoorOut;
use crate::io::SerGame;
use crate::io::SerPlayer;
use crate::text;

verus! {

/// The action the match is waiting for next.
#[derive(Clone, Copy, PartialEq, Eq, Structural)]
pub enum Status {
    Roll,
    Buy,
    /// Waiting for bid submissions.
    Auction,
}

/// The string tag of each status, used only at the serialization boundary.
pub open spec fn status_str(s: Status) -> Seq<char> {
    match s {
        Status::Roll => "roll"@,
        Status::Buy => "buy"@,
        Status::Auction => "auction"@,
    }
}

/// The status a string tag denotes.
pub open spec fn status_of(s: Seq<char>) -> Status {
    if s == "roll"@ {
        Status::Roll
    } else if s == "buy"@ {
        Status::Buy
    } else {
        Status::Auction
    }
}

proof fn lemma_status_tags_distinct()
    ensures
        "roll"@ != "buy"@,
        "roll"@ != "auction"@,
        "buy"@ != "auction"@,
        forall|s: Status| status_of(status_str(s)) == s,
{
    reveal_strlit("roll");
    reveal_strlit("buy");
    reveal_strlit("auction");
    assert("roll"@.len() == 4);
    assert("buy"@.len() == 3);
    assert("auction"@.len() == 7);
    assert(forall|s: Status| status_of(status_str(s)) == s) by {
        assert(status_of(status_str(Status::Roll)) == Status::Roll);
        assert(status_of(status_str(Status::Buy)) == Status::Buy);
        assert(status_of(status_str(Status::Auction)) == Status::Auction);
    }
}

impl Status {
    pub fn stringify(&self) -> (r: &'static str)
        ensures
            r@ == status_str(*self),
    {
        match self {
            Status::Buy => "buy",
            Status::Roll => "roll",
            Status::Auction => "auction",
        }
    }

    pub fn serialize(&self) -> (r: String)
        ensures
            r@ == status_str(*self),
    {
        self.stringify().to_owned()
    }

    /// The status denoted by a tag; only the three known tags are meaningful.
    pub fn deserialize(status: &str) -> (r: Status)
        requires
            status@ == "roll"@ || status@ == "buy"@ || status@ == "auction"@,
        ensures
            status_str(r) == status@,
            r == status_of(status@),
    {
        proof {
            lemma_status_tags_distinct();
        }
        if text::str_eq(status, "roll") {
            Status::Roll
        } else if text::str_eq(status, "buy") {
            Status::Buy
        } else {
            Status::Auction
        }
    }
}

/// The mathematical model of one participant.
pub ghost struct PlayerV {
    pub user_id: int,
    pub username: Option<Seq<char>>,
    pub ownership: Seq<Option<u8>>,
    pub position: int,
    pub money: int,
    pub is_jailed: bool,
    pub streak: int,
}

/// The view of an optional display name.
pub open spec fn view_name(u: Option<String>) -> Option<Seq<char>> {
    match u {
        Some(s) => Some(s@),
        None => None,
    }
}

impl PlayerV {
    /// Whether the participant owns tile `t`.
    pub open spec fn owns(self, t: int) -> bool {
        owns_tile(self.ownership, t)
    }

    /// The house count on tile `t` (0 when unowned).
    pub open spec fn houses(self, t: int) -> int {
        match self.ownership[t] {
            Some(h) => h as int,
            None => 0,
        }
    }

    /// Structural validity: a dense 40-entry ownership map, a board position,
    /// a doubles streak of at most 2, and at most a hotel (5) per tile.
    pub open spec fn wf(self) -> bool {
        &&& self.ownership.len() == 40
        &&& 0 <= self.position < 40
        &&& 0 <= self.streak <= 2
        &&& forall|t: int| 0 <= t < 40 ==> #[trigger] self.houses(t) <= 5
    }
}

/// Per-participant mutable state, created once at match start.
pub struct Player {
    pub user_id: usize,
    pub username: Option<String>,
    /// Dense ownership map: index = tile id, `Some(h)` = owned with `h` houses.
    pub ownership: Vec<Option<u8>>,
    pub position: usize,
    pub money: isize,
    pub is_jailed: bool,
    pub streak: u8,
}

impl View for Player {
    type V = PlayerV;

    open spec fn view(&self) -> PlayerV {
        PlayerV {
            user_id: self.user_id as int,
            username: view_name(self.username),
            ownership: self.ownership@,
            position: self.position as int,
            money: self.money as int,
            is_jailed: self.is_jailed,
            streak: self.streak as int,
        }
    }
}

impl View for SerPlayer {
    type V = PlayerV;

    open spec fn view(&self) -> PlayerV {
        PlayerV {
            user_id: self.user_id as int,
            username: view_name(self.username),
            ownership: self.ownership@,
            position: self.position as int,
            money: self.money as int,
            is_jailed: self.is_jailed,
            streak: self.streak as int,
        }
    }
}

/// A fresh, unowned 40-entry ownership map.
pub open spec fn empty_ownership() -> Seq<Option<u8>> {
    Seq::new(40, |i: int| None::<u8>)
}

fn clone_username(u: &Option<String>) -> (r: Option<String>)
    ensures
        view_name(r) == view_name(*u),
{
    match u {
        Some(s) => Some(s.clone()),
        None => None,
    }
}

fn copy_ownership(o: &Vec<Option<u8>>) -> (r: Vec<Option<u8>>)
    ensures
        r@ == o@,
{
    let mut r: Vec<Option<u8>> = Vec::new();
    let mut i: usize = 0;
    while i < o.len()
        invariant
            i <= o@.len(),
            r@ == o@.subrange(0, i as int),
        decreases o@.len() - i,
    {
        r.push(o[i]);
        proof {
            assert(r@ =~= o@.subrange(0, i + 1 as int));
        }
        i = i + 1;
    }
    proof {
        assert(r@ =~= o@);
    }
    r
}

impl Player {
    pub fn new(user_id: usize, username: Option<String>) -> (r: Player)
        ensures
            r@ == (PlayerV {
                user_id: user_id as int,
                username: view_name(username),
                ownership: empty_ownership(),
                position: 0,
                money: 1500,
                is_jailed: false,
                streak: 0,
            }),
            r@.wf(),
    {
        let mut ownership: Vec<Option<u8>> = Vec::new();
        let mut i: usize = 0;
        while i < 40
            invariant
                i <= 40,
                ownership@.len() == i,
                forall|k: int| 0 <= k < i ==> ownership@[k] is None,
            decreases 40 - i,
        {
            ownership.push(None);
            i = i + 1;
        }
        proof {
            assert(ownership@ =~= empty_ownership());
        }
        Player {
            user_id,
            username,
            ownership,
            position: 0,
            money: 1500,
            is_jailed: false,
            streak: 0,
        }
    }

    pub fn serialize(&self) -> (r: SerPlayer)
        ensures
            r@ == self@,
    {
        SerPlayer {
            user_id: self.user_id,
            username: clone_username(&self.username),
            ownership: copy_ownership(&self.ownership),
            position: self.position,
            money: self.money,
            is_jailed: self.is_jailed,
            streak: self.streak,
        }
    }

    pub fn deserialize(player: &SerPlayer) -> (r: Player)
        ensures
            r@ == player@,
    {
        Player {
            user_id: player.user_id,
            username: clone_username(&player.username),
            ownership: copy_ownership(&player.ownership),
            position: player.position,
            money: player.money,
            is_jailed: player.is_jailed,
            streak: player.streak,
        }
    }
}

/// The next station tile forward of `pos`, from the fixed lookup table.
pub open spec fn station_target(pos: int) -> int {
    if pos <= 4 {
        5
    } else if pos <= 14 {
        15
    } else if pos <= 24 {
        25
    } else if pos <= 35 {
        35
    } else {
        5
    }
}

/// The next utility tile forward of `pos`, from the fixed lookup table.
pub open spec fn utility_target(pos: int) -> int {
    if pos <= 11 {
        12
    } else if pos <= 27 {
        28
    } else {
        12
    }
}

/// Three tiles backward of `pos`, with wraparound.
pub open spec fn back3(pos: int) -> int {
    if pos >= 3 {
        pos - 3
    } else {
        40 + pos - 3
    }
}

/// What a card effect does to a participant. A relocation card whose target
/// is behind the current position credits a card-triggered GO pass. The
/// effects GetOutOfJail, GoToJail, PayAll, Repairs and Assession are
/// recognized tags but not yet supported: they leave the state unchanged.
pub open spec fn apply_card_v(p: PlayerV, e: board::CardEffect) -> PlayerV {
    match e {
        board::CardEffect::Money(m) => PlayerV { money: p.money + m, ..p },
        board::CardEffect::Position(t) => PlayerV {
            money: p.money + if (t as int) < p.position {
                200int
            } else {
                0int
            },
            position: t as int,
            ..p
        },
        board::CardEffect::NearestStation => PlayerV { position: station_target(p.position), ..p },
        board::CardEffect::NearestUtility => PlayerV { position: utility_target(p.position), ..p },
        board::CardEffect::GoBack3 => PlayerV { position: back3(p.position), ..p },
        board::CardEffect::GetOutOfJail => p,
        board::CardEffect::GoToJail => p,
        board::CardEffect::PayAll(_) => p,
        board::CardEffect::Repairs => p,
        board::CardEffect::Assession => p,
    }
}

/// The machine-limit side conditions under which a card effect applies
/// without overflow, and keeps the position on the board.
pub open spec fn card_effect_ok(p: PlayerV, e: board::CardEffect) -> bool {
    match e {
        board::CardEffect::Money(m) => isize::MIN <= p.money + m <= isize::MAX,
        board::CardEffect::Position(t) => (t as int) < 40 && p.money + 200 <= isize::MAX,
        _ => true,
    }
}

/// Every card of either deck moves money by at most 200 either way and
/// relocates only to positions on the board.
pub open spec fn effect_benign(e: board::CardEffect) -> bool {
    match e {
        board::CardEffect::Money(m) => -200 <= m <= 200,
        board::CardEffect::Position(t) => (t as int) < 40,
        _ => true,
    }
}

proof fn lemma_deck_effects_benign()
    ensures
        forall|i: int| 0 <= i < 16 ==> effect_benign(#[trigger] board::spec_chance_deck()[i].effect),
        forall|i: int| 0 <= i < 16 ==> effect_benign(#[trigger] board::spec_chest_deck()[i].effect),
{
    assert forall|i: int| 0 <= i < 16 implies effect_benign(
        #[trigger] board::spec_chance_deck()[i].effect,
    ) by {
        if i == 0 {
            assert(effect_benign(board::spec_chance_deck()[0].effect));
        } else if i == 1 {
            assert(effect_benign(board::spec_chance_deck()[1].effect));
        } else if i == 2 {
            assert(effect_benign(board::spec_chance_deck()[2].effect));
        } else if i == 3 {
            assert(effect_benign(board::spec_chance_deck()[3].effect));
        } else if i == 13 {
            assert(effect_benign(board::spec_chance_deck()[13].effect));
        }
    }
    assert forall|i: int| 0 <= i < 16 implies effect_benign(
        #[trigger] board::spec_chest_deck()[i].effect,
    ) by {
        if i == 0 {
            assert(effect_benign(board::spec_chest_deck()[0].effect));
        }
    }
}

impl Player {
    /// Applies one card effect.
    pub fn apply_card(&mut self, effect: board::CardEffect)
        requires
            old(self)@.wf(),
            card_effect_ok(old(self)@, effect),
        ensures
            final(self)@ == apply_card_v(old(self)@, effect),
            final(self)@.wf(),
    {
        match effect {
            board::CardEffect::Assession => {
                // not yet supported
            },
            board::CardEffect::GetOutOfJail => {
                // not yet supported
            },
            board::CardEffect::GoBack3 => {
                self.position = if self.position >= 3 {
                    self.position - 3
                } else {
                    40 + self.position - 3
                };
            },
            board::CardEffect::GoToJail => {
                // not yet supported
            },
            board::CardEffect::Money(money) => {
                self.money = self.money + money;
            },
            board::CardEffect::NearestStation => {
                self.position = if self.position <= 4 {
                    5
                } else if self.position <= 14 {
                    15
                } else if self.position <= 24 {
                    25
                } else if self.position <= 35 {
                    35
                } else {
                    5
                };
            },
            board::CardEffect::NearestUtility => {
                self.position = if self.position <= 11 {
                    12
                } else if self.position <= 27 {
                    28
                } else {
                    12
                };
            },
            board::CardEffect::PayAll(_money) => {
                // not yet supported
            },
            board::CardEffect::Position(position) => {
                if position < self.position {
                    self.money = self.money + 200;
                }
                self.position = position;
            },
            board::CardEffect::Repairs => {
                // not yet supported
            },
        }
        proof {
            assert(self@.ownership == old(self)@.ownership);
            assert forall|t: int| 0 <= t < 40 implies #[trigger] self@.houses(t) <= 5 by {
                assert(old(self)@.houses(t) <= 5);
            }
        }
    }

    /// Draws a card from the named deck and applies its effect; the result
    /// is the card's narration text.
    pub fn roll_card(&mut self, is_chance: bool) -> (r: &'static str)
        requires
            old(self)@.wf(),
            old(self)@.money + 200 <= isize::MAX,
            old(self)@.money - 200 >= isize::MIN,
        ensures
            exists|i: int|
                0 <= i < 16 && {
                    let c = #[trigger] deck_card(is_chance, i);
                    final(self)@ == apply_card_v(old(self)@, c.effect) && r@ == c.note
                },
            final(self)@.wf(),
    {
        let card: board::Card = if is_chance {
            board::chance_roll()
        } else {
            board::chest_roll()
        };
        proof {
            lemma_deck_effects_benign();
            let i = if is_chance {
                choose|i: int| 0 <= i < 16 && #[trigger] board::spec_chance_deck()[i] == card@
            } else {
                choose|i: int| 0 <= i < 16 && #[trigger] board::spec_chest_deck()[i] == card@
            };
            assert(deck_card(is_chance, i) == card@);
            assert(effect_benign(card.effect));
        }
        let note: &'static str = card.note;
        self.apply_card(card.effect);
        note
    }

    /// Sends the participant to jail: position 10, streak cleared.
    pub fn go_to_jail(&mut self)
        ensures
            final(self)@ == (PlayerV {
                position: 10,
                is_jailed: true,
                streak: 0,
                ..old(self)@
            }),
    {
        self.streak = 0;
        self.is_jailed = true;
        self.position = 10;
    }
}

/// The card at index `i` of the deck that `is_chance` names.
pub open spec fn deck_card(is_chance: bool, i: int) -> board::CardV {
    if is_chance {
        board::spec_chance_deck()[i]
    } else {
        board::spec_chest_deck()[i]
    }
}

/// Every purchasable tile's book cost lies between 60 and 400.
pub proof fn lemma_tile_cost_range(id: int)
    ensures
        board::purchasable(id) ==> 60 <= board::tile_cost(id) <= 400,
{
}

/// The refusal narration of a purchase that the buyer cannot afford.
pub open spec fn msg_not_enough_buy(money: int, name: Seq<char>, cost: int) -> Seq<char> {
    "Not enough money. \n"@ + crate::text::dec_int(money) + " in the bank. "@ + name + " costs "@
        + crate::text::dec_int(cost)
}

/// The narration of a completed purchase.
pub open spec fn msg_purchased(name: Seq<char>, money: int) -> Seq<char> {
    "Purchased "@ + name + ". \n"@ + crate::text::dec_int(money) + " in the bank."@
}

impl Player {
    /// Attempts to buy the tile the participant stands on, at the given book
    /// cost; on success the tile is recorded with zero houses.
    pub fn try_buying<P: board::GetCost>(&mut self, name: &str, prop: P) -> (r: (PoorOut, bool))
        requires
            old(self)@.wf(),
            0 <= prop.spec_cost() <= isize::MAX,
        ensures
            final(self)@.wf(),
            r.0.warning@.len() == 0,
            if old(self)@.money < prop.spec_cost() {
                &&& final(self)@ == old(self)@
                &&& r.1 == false
                &&& r.0.out@ == msg_not_enough_buy(
                    old(self)@.money,
                    name@,
                    prop.spec_cost(),
                )
            } else {
                &&& final(self)@ == (PlayerV {
                    money: old(self)@.money - prop.spec_cost(),
                    ownership: old(self)@.ownership.update(old(self)@.position, Some(0u8)),
                    ..old(self)@
                })
                &&& r.1 == true
                &&& r.0.out@ == msg_purchased(name@, old(self)@.money - prop.spec_cost())
            },
    {
        let cost: isize = prop.get_cost();
        let (out, success): (String, bool) = if self.money < cost {
            (
                "Not enough money. \n".to_owned().concat(
                    text::isize_to_string(self.money).as_str(),
                ).concat(" in the bank. ").concat(name).concat(" costs ").concat(
                    text::isize_to_string(cost).as_str(),
                ),
                false,
            )
        } else {
            self.money = self.money - cost;
            self.ownership.set(self.position, Some(0));
            proof {
                assert forall|t: int| 0 <= t < 40 implies #[trigger] self@.houses(t) <= 5 by {
                    assert(old(self)@.houses(t) <= 5);
                }
            }
            (
                "Purchased ".to_owned().concat(name).concat(". \n").concat(
                    text::isize_to_string(self.money).as_str(),
                ).concat(" in the bank."),
                true,
            )
        };
        (PoorOut::new(out, String::new()), success)
    }

    /// Settles a won auction: the tile is transferred at zero houses, and the
    /// tile's fixed book cost (not the winning bid) is deducted.
    pub fn win_bid(&mut self, tile_id: usize)
        requires
            old(self)@.wf(),
            tile_id < 40,
            board::purchasable(tile_id as int),
            old(self)@.money - board::tile_cost(tile_id as int) >= isize::MIN,
        ensures
            final(self)@ == (PlayerV {
                money: old(self)@.money - board::tile_cost(tile_id as int),
                ownership: old(self)@.ownership.update(tile_id as int, Some(0u8)),
                ..old(self)@
            }),
            final(self)@.wf(),
    {
        self.ownership.set(tile_id, Some(0));
        let tile: board::Tile = board::board_tile(tile_id);
        let cost: isize = match tile.inner {
            board::TileType::Street(prop) => prop.get_cost(),
            board::TileType::Railroad(prop) => prop.get_cost(),
            board::TileType::Utility(prop) => prop.get_cost(),
            _ => unreached(),
        };
        proof {
            lemma_tile_cost_range(tile_id as int);
        }
        self.money = self.money - cost;
        proof {
            assert forall|t: int| 0 <= t < 40 implies #[trigger] self@.houses(t) <= 5 by {
                assert(old(self)@.houses(t) <= 5);
            }
        }
    }
}

/// The participant views of a roster.
pub open spec fn players_view(ps: Seq<Player>) -> Seq<PlayerV> {
    Seq::new(ps.len(), |i: int| ps[i]@)
}

/// The participant views of a serialized roster.
pub open spec fn ser_players_view(ps: Seq<SerPlayer>) -> Seq<PlayerV> {
    Seq::new(ps.len(), |i: int| ps[i]@)
}

/// A display name, with "None" standing in for a missing one.
pub open spec fn display_name(u: Option<Seq<char>>) -> Seq<char> {
    match u {
        Some(n) => n,
        None => "None"@,
    }
}

/// The refusal narration for a tile that already has an owner.
pub open spec fn msg_owned_by(name: Option<Seq<char>>) -> Seq<char> {
    "This property is already owned by "@ + display_name(name)
}

/// Whether any participant owns tile `t`.
pub open spec fn has_owner(ps: Seq<PlayerV>, t: int) -> bool {
    exists|i: int| 0 <= i < ps.len() && (#[trigger] ps[i]).owns(t)
}

/// No tile is in two participants' ownership maps at once.
pub open spec fn single_owner(ps: Seq<PlayerV>) -> bool {
    forall|i: int, j: int, t: int|
        0 <= i < ps.len() && 0 <= j < ps.len() && i != j && #[trigger] ps[i].owns(t) ==> !(
        #[trigger] ps[j].owns(t))
}

/// The first index at or after `i` whose participant owns tile `t`.
pub open spec fn find_owner_from(ps: Seq<PlayerV>, t: int, i: int) -> Option<int>
    decreases ps.len() - i,
{
    if i < 0 || i >= ps.len() {
        None
    } else if ps[i].owns(t) {
        Some(i)
    } else {
        find_owner_from(ps, t, i + 1)
    }
}

/// The first index at or after `i` whose participant has user id `id`.
pub open spec fn find_id_from(ps: Seq<PlayerV>, id: int, i: int) -> Option<int>
    decreases ps.len() - i,
{
    if i < 0 || i >= ps.len() {
        None
    } else if ps[i].user_id == id {
        Some(i)
    } else {
        find_id_from(ps, id, i + 1)
    }
}

/// Whether any participant owns the given tile.
fn check_owner(players: &Vec<Player>, position: usize) -> (r: bool)
    ensures
        r == has_owner(players_view(players@), position as int),
{
    let ghost ps = players_view(players@);
    let mut i: usize = 0;
    while i < players.len()
        invariant
            i <= players@.len(),
            ps == players_view(players@),
            forall|k: int| 0 <= k < i ==> !(#[trigger] ps[k]).owns(position as int),
        decreases players@.len() - i,
    {
        if board::contains_key(&players[i].ownership, position) {
            proof {
                assert(ps[i as int].owns(position as int));
            }
            return true;
        }
        i = i + 1;
    }
    false
}

/// The roster index of the first participant owning the given tile, if any.
fn find_owner_index(players: &Vec<Player>, position: usize) -> (r: Option<usize>)
    ensures
        match r {
            Some(i) => find_owner_from(players_view(players@), position as int, 0) == Some(
                i as int,
            ) && i < players@.len(),
            None => find_owner_from(players_view(players@), position as int, 0) is None,
        },
{
    let ghost ps = players_view(players@);
    let mut i: usize = 0;
    while i < players.len()
        invariant
            i <= players@.len(),
            ps == players_view(players@),
            find_owner_from(ps, position as int, 0) == find_owner_from(ps, position as int, i as int),
        decreases players@.len() - i,
    {
        if board::contains_key(&players[i].ownership, position) {
            proof {
                assert(ps[i as int].owns(position as int));
            }
            return Some(i);
        }
        i = i + 1;
    }
    None
}

/// The roster index of the first participant with the given user id, if any.
fn find_index_by_id(players: &Vec<Player>, user_id: usize) -> (r: Option<usize>)
    ensures
        match r {
            Some(i) => find_id_from(players_view(players@), user_id as int, 0) == Some(i as int)
                && i < players@.len(),
            None => find_id_from(players_view(players@), user_id as int, 0) is None,
        },
{
    let ghost ps = players_view(players@);
    let mut i: usize = 0;
    while i < players.len()
        invariant
            i <= players@.len(),
            ps == players_view(players@),
            find_id_from(ps, user_id as int, 0) == find_id_from(ps, user_id as int, i as int),
        decreases players@.len() - i,
    {
        if players[i].user_id == user_id {
            return Some(i);
        }
        i = i + 1;
    }
    None
}

/// The narration of a completed rent claim; both balances are reported as
/// they stood before the transfer.
pub open spec fn msg_rent(cn: Seq<char>, rn: Seq<char>, cm: int, rm: int) -> Seq<char> {
    cn + " collected rent from "@ + rn + ". "@ + cn + " now has "@ + crate::text::dec_int(cm)
        + ", "@ + rn + " now has "@ + crate::text::dec_int(rm) + "."@
}

/// The refusal narration of a build the owner cannot afford.
pub open spec fn msg_not_enough_build(money: int, price: int) -> Seq<char> {
    "Not enough money. You have "@ + crate::text::dec_int(money) + ", building costs "@
        + crate::text::dec_int(price) + "."@
}

/// The narration of a completed build step.
pub open spec fn msg_built(hotel: bool, money: int) -> Seq<char> {
    (if hotel {
        "Built 3 hotels. "@
    } else {
        "Built 3 houses. "@
    }) + crate::text::dec_int(money) + " in the bank"@
}

fn msg_not_enough_build_exec(money: isize, price: isize) -> (r: String)
    ensures
        r@ == msg_not_enough_build(money as int, price as int),
{
    "Not enough money. You have ".to_owned().concat(text::isize_to_string(money).as_str()).concat(
        ", building costs ",
    ).concat(text::isize_to_string(price).as_str()).concat(".")
}

/// The ownership entry for tile `id`, when the map reaches that far.
fn get_house(o: &Vec<Option<u8>>, id: usize) -> (r: Option<u8>)
    ensures
        r == if (id as int) < o@.len() {
            o@[id as int]
        } else {
            None::<u8>
        },
{
    if id < o.len() {
        o[id]
    } else {
        None
    }
}

/// The rent a claimant `p` is owed on tile `pos`: the ladder entry for a
/// street, the ownership-count formula for a railroad, and the dice-total
/// formula for a utility.
pub open spec fn rent_rate(p: PlayerV, pos: int, total: int) -> int {
    match board::tile_kind(pos) {
        board::TileType::Street(s) => s.rent_prices[p.houses(pos)] as int,
        board::TileType::Railroad(_) => board::railroad_rent(board::railroad_count(p.ownership)),
        board::TileType::Utility(_) => board::utility_rent(p.ownership, total),
        _ => 0,
    }
}

/// An upper bound on the rent a claim on tile `pos` can move.
pub open spec fn rent_rate_bound(pos: int, houses: int) -> int {
    match board::tile_kind(pos) {
        board::TileType::Street(s) => s.rent_prices[houses] as int,
        board::TileType::Railroad(_) => 200,
        board::TileType::Utility(_) => 120,
        _ => 0,
    }
}

/// The machine-limit side conditions of a rent claim: when the claim will
/// settle, the tile must be of a rent-bearing kind and both balances must
/// have room for the transfer.
pub open spec fn rent_ok(g: GameV, caller: int) -> bool {
    let pos = g.current().position;
    let ci_opt = find_id_from(g.players, caller, 0);
    (g.current().user_id != caller && ci_opt is Some && g.players[ci_opt->Some_0].owns(pos)) ==> {
        let ci = ci_opt->Some_0;
        &&& board::purchasable(pos)
        &&& g.players[ci].money + rent_rate_bound(pos, g.players[ci].houses(pos)) <= isize::MAX
        &&& g.current().money - rent_rate_bound(pos, g.players[ci].houses(pos)) >= isize::MIN
    }
}

/// A settled rent claim: the owed amount moves from the current player to
/// the claimant, and the result reports the pre-transfer balances.
pub open spec fn rent_applied(
    g: GameV,
    ci: int,
    rate: int,
    g2: GameV,
    r: (PoorOut, Option<(isize, usize, isize)>),
) -> bool {
    let caller = g.players[ci];
    let rentee = g.current();
    &&& g2 == (GameV {
        players: g.players.update(ci, PlayerV { money: caller.money + rate, ..caller }).update(
            g.current_player,
            PlayerV { money: rentee.money - rate, ..rentee },
        ),
        ..g
    })
    &&& (r.1 matches Some(t) && t.0 as int == caller.money && t.1 as int == rentee.user_id && t.2
        as int == rentee.money)
    &&& r.0.out@ == msg_rent(
        display_name(caller.username),
        display_name(rentee.username),
        caller.money,
        rentee.money,
    )
}

/// When a stored match is waiting on an auction, the blob must name a bidder
/// of the roster, the auctioned tile (under the current player) must be
/// purchasable and unowned, and the bidder's balance must have room for the
/// book cost.
pub open spec fn auction_ser_ok(g: SerGame) -> bool {
    let ps = ser_players_view(g.players@);
    let pos = ps[g.current_player as int].position;
    &&& find_id_from(ps, g.bidder_id as int, 0) is Some
    &&& board::purchasable(pos)
    &&& !has_owner(ps, pos)
    &&& ps[find_id_from(ps, g.bidder_id as int, 0)->Some_0].money - board::tile_cost(pos)
        >= isize::MIN
}

/// Structural validity of a stored match: a known status tag, a non-empty
/// roster indexed by `current_player`, well-formed participants with a
/// single owner per tile, and a resolvable auction when one is pending.
pub open spec fn wf_ser(g: SerGame) -> bool {
    let ps = ser_players_view(g.players@);
    &&& g.players@.len() >= 1
    &&& (g.current_player as int) < g.players@.len()
    &&& forall|i: int| 0 <= i < ps.len() ==> (#[trigger] ps[i]).wf()
    &&& single_owner(ps)
    &&& (g.status@ == "roll"@ || g.status@ == "buy"@ || g.status@ == "auction"@)
    &&& (g.status@ == "auction"@ ==> auction_ser_ok(g))
}

/// The fixed colour pricing table must cover a street before a house can be
/// built there; one street (tile 13) is missing from the table.
pub open spec fn build_priced(g: GameV, user: int, tile_id: int) -> bool {
    let pi_opt = find_id_from(g.players, user, 0);
    (pi_opt is Some && g.players[pi_opt->Some_0].owns(tile_id) && board::tile_kind(tile_id)
        is Street && g.players[pi_opt->Some_0].houses(tile_id) < 5) ==> board::spec_colour_price(
        tile_id,
    ) is Some
}

/// A participant stays well-formed when only money or the jail flag change.
proof fn lemma_wf_same_ownership(p: PlayerV, q: PlayerV)
    requires
        p.wf(),
        q.ownership == p.ownership,
        0 <= q.position < 40,
        0 <= q.streak <= 2,
    ensures
        q.wf(),
{
    assert forall|t: int| 0 <= t < 40 implies #[trigger] q.houses(t) <= 5 by {
        assert(p.houses(t) <= 5);
    }
}

/// Replacing one well-formed participant keeps the match well-formed, as
/// long as any tile the replacement newly owns had no owner before.
proof fn lemma_wf_update(g: GameV, q: PlayerV, i: int, g2: GameV)
    requires
        g.wf(),
        0 <= i < g.players.len(),
        q.wf(),
        g2.players == g.players.update(i, q),
        g2.current_player == g.current_player,
        forall|t: int| #[trigger] q.owns(t) && !g.players[i].owns(t) ==> !has_owner(g.players, t),
    ensures
        g2.wf(),
{
    assert forall|a: int, b: int, t: int|
        0 <= a < g2.players.len() && 0 <= b < g2.players.len() && a != b && #[trigger] g2.players[a].owns(
            t,
        ) implies !(#[trigger] g2.players[b].owns(t)) by {
        if a == i {
            if !g.players[i].owns(t) {
                assert(g.players[b].owns(t) ==> has_owner(g.players, t));
            }
        } else if b == i {
            if q.owns(t) && !g.players[i].owns(t) {
                assert(g.players[a].owns(t) ==> has_owner(g.players, t));
                assert(false);
            }
        }
    }
}

/// Whether a roll call is the silent no-op: wrong phase or wrong caller.
pub open spec fn roll_noop(g: GameV, caller: int) -> bool {
    g.status != Status::Roll || g.current().user_id != caller
}

/// The landing position of a dice move: cyclic modulo 40.
pub open spec fn moved_pos(pos: int, d1: int, d2: int) -> int {
    if pos + d1 + d2 >= 40 {
        pos + d1 + d2 - 40
    } else {
        pos + d1 + d2
    }
}

/// Whether a dice move crosses the 40 boundary (passes GO).
pub open spec fn crosses_go(pos: int, d1: int, d2: int) -> bool {
    pos + d1 + d2 >= 40
}

/// The structured outcome a roll reports.
pub ghost struct RollOut {
    pub pos: int,
    pub money: int,
    pub is_jailed: bool,
    pub streak: int,
    pub buy: bool,
}

pub open spec fn roll_result_matches(rr: Option<RollResult>, o: RollOut) -> bool {
    &&& rr is Some
    &&& (rr->0).0 as int == o.pos
    &&& (rr->0).1 as int == o.money
    &&& (rr->0).2 == o.is_jailed
    &&& (rr->0).3 as int == o.streak
    &&& (rr->0).4 == o.buy
}

/// The next roster index, wrapping.
pub open spec fn next_index(cur: int, len: int) -> int {
    if cur + 1 < len {
        cur + 1
    } else {
        0
    }
}

/// A roll that ends in the Roll phase: the mover is replaced, and the turn
/// advances unless the roll was a double.
pub open spec fn roll_end(g: GameV, p2: PlayerV, pos: int, streak2: int, double: bool) -> (
    GameV,
    RollOut,
) {
    (
        GameV {
            players: g.players.update(g.current_player, p2),
            current_player: if double {
                g.current_player
            } else {
                next_index(g.current_player, g.players.len() as int)
            },
            ..g
        },
        RollOut { pos, money: p2.money, is_jailed: false, streak: streak2, buy: false },
    )
}

/// The full outcome of one roll from a state where rolling is due: dice
/// movement with its GO credit, the doubles rule, and the landed tile's
/// effect. `e` is the effect of the drawn card and is read only when the
/// move lands on a Chance or Chest tile.
pub open spec fn spec_roll(g: GameV, d1: int, d2: int, e: board::CardEffect) -> (GameV, RollOut) {
    let cur = g.current_player;
    let p = g.current();
    let pos = moved_pos(p.position, d1, d2);
    let money1 = p.money + if crosses_go(p.position, d1, d2) {
        200int
    } else {
        0int
    };
    let owned = has_owner(g.players, pos);
    if d1 == d2 && p.streak >= 2 {
        // third consecutive double: straight to jail, tile effects skipped
        (
            GameV {
                players: g.players.update(
                    cur,
                    PlayerV { position: 10, money: money1, is_jailed: true, streak: 0, ..p },
                ),
                ..g
            },
            RollOut { pos: 10, money: money1, is_jailed: true, streak: 0, buy: false },
        )
    } else {
        let streak2: int = if d1 == d2 {
            p.streak + 1
        } else {
            0
        };
        let p1 = PlayerV { position: pos, money: money1, streak: streak2, ..p };
        if p.owns(pos) {
            // the mover's own tile: no effect; the turn advances as usual
            roll_end(g, p1, pos, streak2, d1 == d2)
        } else if board::purchasable(pos) && !owned {
            // unowned purchasable tile: wait for a purchase or an auction
            (
                GameV { players: g.players.update(cur, p1), status: Status::Buy, ..g },
                RollOut { pos, money: money1, is_jailed: false, streak: streak2, buy: true },
            )
        } else {
            match board::tile_kind(pos) {
                board::TileType::Chance => roll_end(
                    g,
                    apply_card_v(p1, e),
                    pos,
                    streak2,
                    d1 == d2,
                ),
                board::TileType::Chest => roll_end(g, apply_card_v(p1, e), pos, streak2, d1 == d2),
                board::TileType::GoToJail => (
                    GameV {
                        players: g.players.update(
                            cur,
                            PlayerV {
                                position: 10,
                                money: money1,
                                is_jailed: true,
                                streak: 0,
                                ..p
                            },
                        ),
                        ..g
                    },
                    RollOut { pos: 10, money: money1, is_jailed: true, streak: 0, buy: false },
                ),
                board::TileType::TaxIncome => roll_end(
                    g,
                    PlayerV { money: money1 - 200, ..p1 },
                    pos,
                    streak2,
                    d1 == d2,
                ),
                board::TileType::TaxLuxury => roll_end(
                    g,
                    PlayerV { money: money1 - 100, ..p1 },
                    pos,
                    streak2,
                    d1 == d2,
                ),
                _ => roll_end(g, p1, pos, streak2, d1 == d2),
            }
        }
    }
}

/// A placeholder card for the rolls that draw none.
pub open spec fn no_card() -> board::CardV {
    board::CardV { note: Seq::empty(), effect: board::CardEffect::Repairs }
}

/// Which cards the landed tile can have produced: one of the Chance deck's
/// on a Chance tile, one of the Community Chest deck's on a Chest tile, and
/// the placeholder anywhere else (where no card is drawn).
pub open spec fn card_of_tile(pos: int, c: board::CardV) -> bool {
    if board::tile_kind(pos) is Chance {
        exists|i: int| 0 <= i < 16 && #[trigger] board::spec_chance_deck()[i] == c
    } else if board::tile_kind(pos) is Chest {
        exists|i: int| 0 <= i < 16 && #[trigger] board::spec_chest_deck()[i] == c
    } else {
        c == no_card()
    }
}

/// The machine-limit side condition of a roll that will proceed: the mover's
/// balance must have room for the GO credit plus a card credit (at most
/// +400) and for a tax (at most -200).
pub open spec fn roll_money_ok(g: GameV, caller: int) -> bool {
    !roll_noop(g, caller) ==> g.current().money + 400 <= isize::MAX && g.current().money - 200
        >= isize::MIN
}

/// A card that `card_of_tile` accepts on any tile: for the two card tiles, a
/// card both decks carry; elsewhere, the placeholder. A roll that never
/// reads the card (a jail trip, the mover's own tile) can be described with
/// this one whatever the tile.
pub open spec fn default_card(pos: int) -> board::CardV {
    if board::tile_kind(pos) is Chance {
        board::spec_chance_deck()[10]
    } else if board::tile_kind(pos) is Chest {
        board::spec_chest_deck()[5]
    } else {
        no_card()
    }
}

proof fn lemma_default_card(pos: int)
    ensures
        card_of_tile(pos, default_card(pos)),
{
    if board::tile_kind(pos) is Chance {
        assert(0 <= 10 < 16 && board::spec_chance_deck()[10] == default_card(pos));
    } else if board::tile_kind(pos) is Chest {
        assert(0 <= 5 < 16 && board::spec_chest_deck()[5] == default_card(pos));
    }
}

/// The narration a proceeding roll produces: the dice line with the landed
/// tile's name, the GO notice when the move crossed the boundary, then the
/// landed tile's message — the jail notice, a purchase offer, a drawn card's
/// text — and, unless the roll ended early, the closing balance.
pub open spec fn roll_narration(g: GameV, d1: int, d2: int, c: board::CardV) -> Seq<char> {
    let p = g.current();
    let pos = moved_pos(p.position, d1, d2);
    let base0 = ext::debug_str(display_name(p.username)) + " has rolled "@
        + crate::text::dec_digits(d1 as nat) + " and "@ + crate::text::dec_digits(d2 as nat)
        + ", now on "@ + board::tile_name(pos) + "."@;
    let base = if crosses_go(p.position, d1, d2) {
        base0 + crate::io::sep() + "Passed GO."@
    } else {
        base0
    };
    let bank = crate::text::dec_int(spec_roll(g, d1, d2, c.effect).1.money) + " in the bank."@;
    if d1 == d2 && p.streak >= 2 {
        base + crate::io::sep() + "Rolled double 3 times in a row, go to jail."@
    } else if p.owns(pos) {
        base
    } else if board::purchasable(pos) && !has_owner(g.players, pos) {
        base + crate::io::sep() + ("Buy for "@ + crate::text::dec_int(board::tile_cost(pos))
            + " or start an auction."@)
    } else {
        match board::tile_kind(pos) {
            board::TileType::Chance => base + crate::io::sep() + c.note + crate::io::sep() + bank,
            board::TileType::Chest => base + crate::io::sep() + c.note + crate::io::sep() + bank,
            board::TileType::GoToJail => base,
            _ => base + crate::io::sep() + bank,
        }
    }
}

/// One itemized ownership line: "tile. Name - N house(s)".
pub open spec fn own_line(t: int, h: int) -> Seq<char> {
    crate::text::dec_digits(t as nat) + ". "@ + board::tile_name(t) + " - "@
        + crate::text::dec_digits(h as nat) + " house(s)"@
}

/// The itemized lines for the tiles below `n` that `p` owns, ascending.
pub open spec fn owned_rows(p: PlayerV, n: int) -> Seq<Seq<char>>
    decreases n,
{
    if n <= 0 {
        Seq::empty()
    } else if p.owns(n - 1) {
        owned_rows(p, n - 1).push(own_line(n - 1, p.houses(n - 1)))
    } else {
        owned_rows(p, n - 1)
    }
}

/// The phase-and-turn line of the status report.
pub open spec fn status_line(g: GameV) -> Seq<char> {
    match g.status {
        Status::Roll => "Waiting for "@ + display_name(g.current().username)
            + " to roll the dice."@,
        Status::Buy => "Waiting for "@ + display_name(g.current().username)
            + " to buy or auction off a property."@,
        Status::Auction => "Waiting for bid submissions."@,
    }
}

/// The whole status report: the phase line and, for a caller who owns tiles,
/// their itemized holdings.
pub open spec fn spec_get_status(g: GameV, caller: int) -> Seq<char> {
    let base = status_line(g);
    let ci_opt = find_id_from(g.players, caller, 0);
    if ci_opt is None {
        base
    } else {
        let c = g.players[ci_opt->Some_0];
        if owned_rows(c, 40).len() == 0 {
            base
        } else {
            base + "\n"@ + display_name(c.username) + " owns:\n"@ + ext::spec_join_lines(
                owned_rows(c, 40),
            )
        }
    }
}

/// Movement law: a roll's landing position is the start plus both dice,
/// reduced modulo 40, and the move passes GO exactly when the raw sum
/// reaches 40.
pub proof fn lemma_movement_cyclic(pos: int, d1: int, d2: int)
    requires
        0 <= pos < 40,
        1 <= d1 <= 6,
        1 <= d2 <= 6,
    ensures
        moved_pos(pos, d1, d2) == (pos + d1 + d2) % 40,
        0 <= moved_pos(pos, d1, d2) < 40,
        crosses_go(pos, d1, d2) <==> pos + d1 + d2 >= 40,
{
    if pos + d1 + d2 >= 40 {
        assert((pos + d1 + d2) % 40 == pos + d1 + d2 - 40) by (nonlinear_arith)
            requires
                40 <= pos + d1 + d2 < 80,
        ;
    } else {
        assert((pos + d1 + d2) % 40 == pos + d1 + d2) by (nonlinear_arith)
            requires
                0 <= pos + d1 + d2 < 40,
        ;
    }
}

/// GO-credit law: wherever the landed tile itself moves no money (a plain
/// tile, the mover's own tile, an unowned purchasable tile, a jail trip),
/// the roll changes the mover's money by exactly the GO credit: +200 when
/// the move crossed the boundary, 0 otherwise — never twice.
pub proof fn lemma_go_credit_once(g: GameV, d1: int, d2: int, e: board::CardEffect)
    requires
        g.wf(),
        1 <= d1 <= 6,
        1 <= d2 <= 6,
    ensures
        ({
            let p = g.current();
            let pos = moved_pos(p.position, d1, d2);
            let credit: int = if crosses_go(p.position, d1, d2) {
                200int
            } else {
                0int
            };
            ((d1 == d2 && p.streak >= 2) || p.owns(pos) || (board::purchasable(pos) && !has_owner(
                g.players,
                pos,
            )) || board::tile_kind(pos) is Go || board::tile_kind(pos) is Free || board::tile_kind(
                pos,
            ) is JailVisit || board::tile_kind(pos) is GoToJail) ==> spec_roll(
                g,
                d1,
                d2,
                e,
            ).1.money == p.money + credit
        }),
{
}

/// Triple-double law: a third consecutive double sends the mover straight to
/// jail — position 10, jailed, streak cleared — and skips the landed tile's
/// resolution entirely, whatever that tile would have been; everyone else is
/// untouched and the turn does not advance.
pub proof fn lemma_triple_double(g: GameV, d: int, e: board::CardEffect)
    requires
        g.wf(),
        1 <= d <= 6,
        g.current().streak >= 2,
    ensures
        ({
            let p = g.current();
            let (g2, out) = spec_roll(g, d, d, e);
            let credit: int = if crosses_go(p.position, d, d) {
                200int
            } else {
                0int
            };
            &&& out == (RollOut {
                pos: 10,
                money: p.money + credit,
                is_jailed: true,
                streak: 0,
                buy: false,
            })
            &&& g2.players[g.current_player] == (PlayerV {
                position: 10,
                money: p.money + credit,
                is_jailed: true,
                streak: 0,
                ..p
            })
            &&& g2.status == g.status
            &&& g2.current_player == g.current_player
            &&& forall|i: int|
                0 <= i < g.players.len() && i != g.current_player ==> g2.players[i] == g.players[i]
        }),
{
}

/// A found index owns the tile, and nothing before it does.
proof fn lemma_find_owner_some(ps: Seq<PlayerV>, t: int, i: int, j: int)
    requires
        0 <= i,
        find_owner_from(ps, t, i) == Some(j),
    ensures
        i <= j < ps.len(),
        ps[j].owns(t),
        forall|k: int| i <= k < j ==> !(#[trigger] ps[k]).owns(t),
    decreases ps.len() - i,
{
    if i < ps.len() && !ps[i].owns(t) {
        lemma_find_owner_some(ps, t, i + 1, j);
    }
}

/// When the scan finds nothing, no participant owns the tile.
proof fn lemma_find_owner_none(ps: Seq<PlayerV>, t: int, i: int)
    requires
        0 <= i,
        find_owner_from(ps, t, i) is None,
    ensures
        forall|k: int| i <= k < ps.len() ==> !(#[trigger] ps[k]).owns(t),
    decreases ps.len() - i,
{
    if i < ps.len() {
        lemma_find_owner_none(ps, t, i + 1);
    }
}

/// A found index carries the id, and nothing before it does.
proof fn lemma_find_id_some(ps: Seq<PlayerV>, id: int, i: int, j: int)
    requires
        0 <= i,
        find_id_from(ps, id, i) == Some(j),
    ensures
        i <= j < ps.len(),
        ps[j].user_id == id,
        forall|k: int| i <= k < j ==> (#[trigger] ps[k]).user_id != id,
    decreases ps.len() - i,
{
    if i < ps.len() && ps[i].user_id != id {
        lemma_find_id_some(ps, id, i + 1, j);
    }
}

/// Updating one roster entry updates the view pointwise.
proof fn lemma_players_view_update(ps: Seq<Player>, i: int, p: Player)
    requires
        0 <= i < ps.len(),
    ensures
        players_view(ps.update(i, p)) == players_view(ps).update(i, p@),
{
    assert(players_view(ps.update(i, p)) =~= players_view(ps).update(i, p@));
}

/// Two independent dice, each uniform in 1..=6.
fn roll_dice() -> (r: (usize, usize))
    ensures
        1 <= r.0 <= 6,
        1 <= r.1 <= 6,
{
    (ext::roll_die(), ext::roll_die())
}

/// The match: turn order, the roster, the phase, and the auction sub-state.
pub struct Game {
    pub current_player: usize,
    pub players: Vec<Player>,
    pub status: Status,
    /// 0 means no bid yet.
    pub biggest_bid: isize,
    pub bid_time_sec: usize,
    pub bidder_id: usize,
}

/// The mathematical model of a match.
pub ghost struct GameV {
    pub current_player: int,
    pub players: Seq<PlayerV>,
    pub status: Status,
    pub biggest_bid: int,
    pub bid_time_sec: int,
    pub bidder_id: int,
}

impl View for Game {
    type V = GameV;

    open spec fn view(&self) -> GameV {
        GameV {
            current_player: self.current_player as int,
            players: players_view(self.players@),
            status: self.status,
            biggest_bid: self.biggest_bid as int,
            bid_time_sec: self.bid_time_sec as int,
            bidder_id: self.bidder_id as int,
        }
    }
}

impl GameV {
    /// The participant whose turn it is.
    pub open spec fn current(self) -> PlayerV {
        self.players[self.current_player]
    }

    /// Structural validity: a non-empty roster, a roster index for the
    /// current player, well-formed participants, and a single owner per tile.
    pub open spec fn wf(self) -> bool {
        &&& 1 <= self.players.len()
        &&& 0 <= self.current_player < self.players.len()
        &&& forall|i: int| 0 <= i < self.players.len() ==> (#[trigger] self.players[i]).wf()
        &&& single_owner(self.players)
    }
}

/// position, money, is_jailed, streak, whether the status is now Buy
pub type RollResult = (usize, isize, bool, u8, bool);

impl Game {
    pub fn new(info: Vec<(usize, Option<String>)>) -> (r: Game)
        requires
            info@.len() >= 1,
        ensures
            r@.current_player == 0,
            r@.status == Status::Roll,
            r@.biggest_bid == 0,
            r@.bid_time_sec == 0,
            r@.bidder_id == 0,
            r@.players.len() == info@.len(),
            forall|i: int|
                0 <= i < info@.len() ==> #[trigger] r@.players[i] == (PlayerV {
                    user_id: info@[i].0 as int,
                    username: view_name(info@[i].1),
                    ownership: empty_ownership(),
                    position: 0,
                    money: 1500,
                    is_jailed: false,
                    streak: 0,
                }),
            r@.wf(),
    {
        let mut players: Vec<Player> = Vec::new();
        let mut i: usize = 0;
        while i < info.len()
            invariant
                i <= info@.len(),
                players@.len() == i,
                forall|k: int|
                    0 <= k < i ==> #[trigger] players@[k]@ == (PlayerV {
                        user_id: info@[k].0 as int,
                        username: view_name(info@[k].1),
                        ownership: empty_ownership(),
                        position: 0,
                        money: 1500,
                        is_jailed: false,
                        streak: 0,
                    }),
            decreases info@.len() - i,
        {
            let user_id: usize = info[i].0;
            let username: Option<String> = clone_username(&info[i].1);
            players.push(Player::new(user_id, username));
            i = i + 1;
        }
        let r = Game {
            current_player: 0,
            players,
            status: Status::Roll,
            biggest_bid: 0,
            bid_time_sec: 0,
            bidder_id: 0,
        };
        proof {
            assert forall|k: int| 0 <= k < r@.players.len() implies (
            #[trigger] r@.players[k]).wf() by {
                assert(r@.players[k].ownership == empty_ownership());
                assert(forall|t: int|
                    0 <= t < 40 ==> #[trigger] r@.players[k].houses(t) == 0);
            }
            assert forall|a: int, b: int, t: int|
                0 <= a < r@.players.len() && 0 <= b < r@.players.len() && a != b && #[trigger] r@
                    .players[a].owns(t) implies !(#[trigger] r@.players[b].owns(t)) by {
                assert(r@.players[a].ownership == empty_ownership());
                assert(!r@.players[a].owns(t));
            }
        }
        r
    }

    /// The flat stored form of the match. The round trip is lossless: the
    /// stored form carries exactly this match's view, `deserialize` reads
    /// the same status back, and for a well-formed match outside an auction
    /// the stored form satisfies the codec's validity outright.
    pub fn serialize(&self) -> (r: SerGame)
        ensures
            r.current_player == self.current_player,
            r.status@ == status_str(self@.status),
            status_of(r.status@) == self@.status,
            ser_players_view(r.players@) == self@.players,
            r.players@.len() == self@.players.len(),
            forall|i: int|
                0 <= i < self@.players.len() ==> #[trigger] r.players@[i]@ == self@.players[i],
            r.biggest_bid == self.biggest_bid,
            r.bid_time_sec == self.bid_time_sec,
            r.bidder_id == self.bidder_id,
            self@.wf() && self@.status != Status::Auction ==> wf_ser(r),
    {
        let mut players: Vec<SerPlayer> = Vec::new();
        let mut i: usize = 0;
        while i < self.players.len()
            invariant
                i <= self.players@.len(),
                players@.len() == i,
                forall|k: int| 0 <= k < i ==> #[trigger] players@[k]@ == players_view(
                    self.players@,
                )[k],
            decreases self.players@.len() - i,
        {
            players.push(self.players[i].serialize());
            i = i + 1;
        }
        let r = SerGame::new(
            self.current_player,
            self.status.serialize(),
            players,
            self.biggest_bid,
            self.bid_time_sec,
            self.bidder_id,
        );
        proof {
            lemma_status_tags_distinct();
            assert(ser_players_view(r.players@) =~= self@.players);
            if self@.wf() && self@.status != Status::Auction {
                assert(r.status@ != "auction"@);
            }
        }
        r
    }

    /// Submits a bid at a known clock reading. A bid is accepted iff it
    /// strictly exceeds the biggest bid so far; an accepted bid slides the
    /// deadline forward to `now_sec`. No funds are checked at bid time.
    pub fn bid_at(&mut self, caller_id: usize, price: isize, now_sec: usize) -> (r: (
        PoorOut,
        Option<usize>,
    ))
        ensures
            old(self)@.status != Status::Auction ==> final(self)@ == old(self)@ && r.1 is None
                && r.0.out@.len() == 0 && r.0.warning@.len() == 0,
            old(self)@.status == Status::Auction && old(self)@.biggest_bid >= price as int ==> final(self)@
                == old(self)@ && r.1 is None && r.0.out@ == "Enter a bigger bid"@
                && r.0.warning@.len() == 0,
            old(self)@.status == Status::Auction && old(self)@.biggest_bid < price as int ==> {
                &&& final(self)@ == (GameV {
                    biggest_bid: price as int,
                    bidder_id: caller_id as int,
                    bid_time_sec: now_sec as int,
                    ..old(self)@
                })
                &&& r.1 == Some(now_sec)
                &&& r.0.out@ == "Biggest bid "@ + text::dec_int(price as int)
                &&& r.0.warning@.len() == 0
            },
    {
        if !matches!(self.status, Status::Auction) {
            // Do nothing if it's not the time to make bids
            return (PoorOut::empty(), None);
        } else if self.biggest_bid >= price {
            return (PoorOut::new("Enter a bigger bid".to_owned(), String::new()), None);
        }
        self.biggest_bid = price;
        self.bidder_id = caller_id;
        self.bid_time_sec = now_sec;
        (
            PoorOut::new(
                "Biggest bid ".to_owned().concat(text::isize_to_string(self.biggest_bid).as_str()),
                String::new(),
            ),
            Some(self.bid_time_sec),
        )
    }

    /// Submits a bid, stamping an accepted one with the clock now.
    pub fn bid(&mut self, caller_id: usize, price: isize) -> (r: (PoorOut, Option<usize>))
        ensures
            old(self)@.status != Status::Auction ==> final(self)@ == old(self)@ && r.1 is None
                && r.0.out@.len() == 0 && r.0.warning@.len() == 0,
            old(self)@.status == Status::Auction && old(self)@.biggest_bid >= price as int ==> final(self)@
                == old(self)@ && r.1 is None && r.0.out@ == "Enter a bigger bid"@
                && r.0.warning@.len() == 0,
            old(self)@.status == Status::Auction && old(self)@.biggest_bid < price as int ==> {
                &&& final(self)@ == (GameV {
                    biggest_bid: price as int,
                    bidder_id: caller_id as int,
                    bid_time_sec: final(self)@.bid_time_sec,
                    ..old(self)@
                })
                &&& (r.1 matches Some(t) && t as int == final(self)@.bid_time_sec)
                &&& r.0.out@ == "Biggest bid "@ + text::dec_int(price as int)
                &&& r.0.warning@.len() == 0
            },
    {
        let now: usize = ext::now_sec();
        self.bid_at(caller_id, price, now)
    }

    /// Opens an auction at a known clock reading: entry stake 40, the caller
    /// as first bidder, and the deadline anchored at `now_sec`.
    pub fn auction_at(&mut self, caller_id: usize, now_sec: usize) -> (r: (PoorOut, Option<usize>))
        requires
            old(self)@.wf(),
        ensures
            final(self)@.wf(),
            r.0.warning@.len() == 0,
            ({
                let g = old(self)@;
                let pos = g.current().position;
                if g.status != Status::Buy {
                    final(self)@ == g && r.1 is None && r.0.out@.len() == 0
                } else if g.current().user_id != caller_id as int {
                    final(self)@ == g && r.1 is None && r.0.out@.len() == 0
                } else if find_owner_from(g.players, pos, 0) is Some {
                    final(self)@ == g && r.1 is None && r.0.out@ == msg_owned_by(
                        g.players[find_owner_from(g.players, pos, 0)->Some_0].username,
                    )
                } else if !board::purchasable(pos) {
                    final(self)@ == g && r.1 is None && r.0.out@ == "Non-purchasable tile"@
                } else if g.current().money < 40 {
                    final(self)@ == g && r.1 is None && r.0.out@
                        == "You don't have enough money to start a bid."@
                } else {
                    &&& final(self)@ == (GameV {
                        status: Status::Auction,
                        bidder_id: caller_id as int,
                        bid_time_sec: now_sec as int,
                        biggest_bid: 40,
                        ..g
                    })
                    &&& r.1 == Some(now_sec)
                    &&& r.0.out@ == "Starting an auction. Starting bid is 40. \n10 seconds to make a bid"@
                }
            }),
    {
        if !matches!(self.status, Status::Buy) {
            // Do nothing if it's not the time to start auctions
            return (PoorOut::empty(), None);
        }
        let cur: usize = self.current_player;
        if self.players[cur].user_id != caller_id {
            // Do nothing if it's not the caller's turn to start auctions
            return (PoorOut::empty(), None);
        }
        let position: usize = self.players[cur].position;
        match find_owner_index(&self.players, position) {
            Some(oi) => {
                proof {
                    lemma_find_owner_some(self@.players, position as int, 0, oi as int);
                }
                let name: &str = match &self.players[oi].username {
                    Some(s) => s.as_str(),
                    None => "None",
                };
                return (
                    PoorOut::new(
                        "This property is already owned by ".to_owned().concat(name),
                        String::new(),
                    ),
                    None,
                );
            },
            None => {},
        }
        let tile: board::Tile = board::board_tile(position);
        if !matches!(
            tile.inner,
            board::TileType::Street(_) | board::TileType::Railroad(_) | board::TileType::Utility(_),
        ) {
            return (PoorOut::new("Non-purchasable tile".to_owned(), String::new()), None);
        }
        if self.players[cur].money < 40 {
            return (
                PoorOut::new(
                    "You don't have enough money to start a bid.".to_owned(),
                    String::new(),
                ),
                None,
            );
        }
        self.status = Status::Auction;
        self.bidder_id = caller_id;
        self.bid_time_sec = now_sec;
        self.biggest_bid = 40;
        (
            PoorOut::new(
                "Starting an auction. Starting bid is 40. \n10 seconds to make a bid".to_owned(),
                String::new(),
            ),
            Some(self.bid_time_sec),
        )
    }

    /// Opens an auction, anchoring the deadline at the clock now.
    pub fn auction(&mut self, caller_id: usize) -> (r: (PoorOut, Option<usize>))
        requires
            old(self)@.wf(),
        ensures
            final(self)@.wf(),
            r.0.warning@.len() == 0,
            ({
                let g = old(self)@;
                let pos = g.current().position;
                if g.status != Status::Buy {
                    final(self)@ == g && r.1 is None && r.0.out@.len() == 0
                } else if g.current().user_id != caller_id as int {
                    final(self)@ == g && r.1 is None && r.0.out@.len() == 0
                } else if find_owner_from(g.players, pos, 0) is Some {
                    final(self)@ == g && r.1 is None && r.0.out@ == msg_owned_by(
                        g.players[find_owner_from(g.players, pos, 0)->Some_0].username,
                    )
                } else if !board::purchasable(pos) {
                    final(self)@ == g && r.1 is None && r.0.out@ == "Non-purchasable tile"@
                } else if g.current().money < 40 {
                    final(self)@ == g && r.1 is None && r.0.out@
                        == "You don't have enough money to start a bid."@
                } else {
                    &&& final(self)@ == (GameV {
                        status: Status::Auction,
                        bidder_id: caller_id as int,
                        bid_time_sec: final(self)@.bid_time_sec,
                        biggest_bid: 40,
                        ..g
                    })
                    &&& (r.1 matches Some(t) && t as int == final(self)@.bid_time_sec)
                    &&& r.0.out@ == "Starting an auction. Starting bid is 40. \n10 seconds to make a bid"@
                }
            }),
    {
        let now: usize = ext::now_sec();
        self.auction_at(caller_id, now)
    }

    /// Buys the tile the current player stands on, at its book cost.
    pub fn buy(&mut self, caller_id: usize) -> (r: (PoorOut, Option<(isize, usize)>))
        requires
            old(self)@.wf(),
        ensures
            final(self)@.wf(),
            r.0.warning@.len() == 0,
            ({
                let g = old(self)@;
                let pos = g.current().position;
                let cost = board::tile_cost(pos);
                if g.status != Status::Buy {
                    final(self)@ == g && r.1 is None && r.0.out@.len() == 0
                } else if g.current().user_id != caller_id as int {
                    final(self)@ == g && r.1 is None && r.0.out@.len() == 0
                } else if find_owner_from(g.players, pos, 0) is Some {
                    final(self)@ == g && r.1 is None && r.0.out@ == msg_owned_by(
                        g.players[find_owner_from(g.players, pos, 0)->Some_0].username,
                    )
                } else if !board::purchasable(pos) {
                    final(self)@ == g && r.1 is None && r.0.out@ == "Non-purchasable tile"@
                } else if g.current().money < cost {
                    final(self)@ == g && r.1 is None && r.0.out@ == msg_not_enough_buy(
                        g.current().money,
                        board::tile_name(pos),
                        cost,
                    )
                } else {
                    &&& final(self)@ == (GameV {
                        players: g.players.update(
                            g.current_player,
                            PlayerV {
                                money: g.current().money - cost,
                                ownership: g.current().ownership.update(pos, Some(0u8)),
                                ..g.current()
                            },
                        ),
                        status: Status::Roll,
                        ..g
                    })
                    &&& (r.1 matches Some(t) && t.0 as int == g.current().money - cost && t.1
                        as int == pos)
                    &&& r.0.out@ == msg_purchased(
                        board::tile_name(pos),
                        g.current().money - cost,
                    )
                }
            }),
    {
        if !matches!(self.status, Status::Buy) {
            // Do nothing if it's not the time to buy
            return (PoorOut::empty(), None);
        }
        let cur: usize = self.current_player;
        if self.players[cur].user_id != caller_id {
            // Do nothing if it's not the caller's turn to buy
            return (PoorOut::empty(), None);
        }
        let position: usize = self.players[cur].position;
        match find_owner_index(&self.players, position) {
            Some(oi) => {
                proof {
                    lemma_find_owner_some(self@.players, position as int, 0, oi as int);
                }
                let name: &str = match &self.players[oi].username {
                    Some(s) => s.as_str(),
                    None => "None",
                };
                return (
                    PoorOut::new(
                        "This property is already owned by ".to_owned().concat(name),
                        String::new(),
                    ),
                    None,
                );
            },
            None => {},
        }
        proof {
            lemma_find_owner_none(self@.players, position as int, 0);
            lemma_tile_cost_range(position as int);
        }
        let tile: board::Tile = board::board_tile(position);
        let ghost g = old(self)@;
        let (output, success): (PoorOut, bool) = match tile.inner {
            board::TileType::Street(prop) => {
                let p: &mut Player = &mut self.players[cur];
                p.try_buying(tile.name, prop)
            },
            board::TileType::Railroad(prop) => {
                let p: &mut Player = &mut self.players[cur];
                p.try_buying(tile.name, prop)
            },
            board::TileType::Utility(prop) => {
                let p: &mut Player = &mut self.players[cur];
                p.try_buying(tile.name, prop)
            },
            _ => (PoorOut::new("Non-purchasable tile".to_owned(), String::new()), false),
        };
        proof {
            lemma_players_view_update(old(self).players@, cur as int, self.players@[cur as int]);
            assert(self@.players =~= g.players.update(cur as int, self@.players[cur as int]));
            if board::purchasable(position as int) && g.current().money >= board::tile_cost(
                position as int,
            ) {
                assert forall|a: int, b: int, t: int|
                    0 <= a < self@.players.len() && 0 <= b < self@.players.len() && a != b && #[trigger] self@.players[a].owns(t) implies !(#[trigger] self@.players[b].owns(t)) by {
                    if t == position as int {
                        assert(!g.players[a].owns(t) || a == cur as int);
                        assert(!g.players[b].owns(t) || b == cur as int);
                    } else {
                        assert(self@.players[a].owns(t) == g.players[a].owns(t));
                        assert(self@.players[b].owns(t) == g.players[b].owns(t));
                    }
                }
            } else {
                assert(self@.players =~= g.players);
            }
        }
        if success {
            self.status = Status::Roll;
            let money: isize = self.players[cur].money;
            (output, Some((money, position)))
        } else {
            (output, None)
        }
    }

    /// Claims rent from the current player, settling at a known dice total
    /// for the utility case.
    pub fn rent_with_dice(&mut self, caller_id: usize, roll_0: usize, roll_1: usize) -> (r: (
        PoorOut,
        Option<(isize, usize, isize)>,
    ))
        requires
            old(self)@.wf(),
            1 <= roll_0 <= 6,
            1 <= roll_1 <= 6,
            rent_ok(old(self)@, caller_id as int),
        ensures
            final(self)@.wf(),
            r.0.warning@.len() == 0,
            ({
                let g = old(self)@;
                let pos = g.current().position;
                let ci_opt = find_id_from(g.players, caller_id as int, 0);
                if g.current().user_id == caller_id as int {
                    final(self)@ == g && r.1 is None && r.0.out@
                        == "Can't ask rent from yourself"@
                } else if ci_opt is None {
                    final(self)@ == g && r.1 is None && r.0.out@.len() == 0
                } else if !g.players[ci_opt->Some_0].owns(pos) {
                    final(self)@ == g && r.1 is None && r.0.out@.len() == 0
                } else {
                    let ci = ci_opt->Some_0;
                    rent_applied(
                        g,
                        ci,
                        rent_rate(g.players[ci], pos, roll_0 + roll_1),
                        final(self)@,
                        r,
                    )
                }
            }),
    {
        let cur: usize = self.current_player;
        if self.players[cur].user_id == caller_id {
            return (
                PoorOut::new("Can't ask rent from yourself".to_owned(), String::new()),
                None,
            );
        }
        let caller_order: usize = match find_index_by_id(&self.players, caller_id) {
            Some(i) => i,
            None => {
                // check here if caller is even a player
                return (PoorOut::empty(), None);
            },
        };
        proof {
            lemma_find_id_some(self@.players, caller_id as int, 0, caller_order as int);
        }
        let position: usize = self.players[cur].position;
        if !board::contains_key(&self.players[caller_order].ownership, position) {
            // Caller isn't an owner
            return (PoorOut::empty(), None);
        }
        let house_count: u8 = match get_house(&self.players[caller_order].ownership, position) {
            Some(h) => h,
            None => unreached(),
        };
        let tile: board::Tile = board::board_tile(position);
        let rent: isize = match tile.inner {
            board::TileType::Street(prop) => prop.rent_prices[house_count as usize],
            board::TileType::Railroad(_) => {
                proof {
                    assert(position == 5 || position == 15 || position == 25 || position == 35);
                }
                board::Railroad::calculate_rent(&self.players[caller_order])
            },
            board::TileType::Utility(_) => board::Utility::calculate_rent_with(
                &self.players[caller_order],
                roll_0,
                roll_1,
            ),
            _ => unreached(),
        };
        let caller_money: isize = self.players[caller_order].money;
        let rentee_money: isize = self.players[cur].money;
        let rentee_id: usize = self.players[cur].user_id;
        let out: String = {
            let caller_name: &str = match &self.players[caller_order].username {
                Some(s) => s.as_str(),
                None => "None",
            };
            let rentee_name: &str = match &self.players[cur].username {
                Some(s) => s.as_str(),
                None => "None",
            };
            caller_name.to_owned().concat(" collected rent from ").concat(rentee_name).concat(
                ". ",
            ).concat(caller_name).concat(" now has ").concat(
                text::isize_to_string(caller_money).as_str(),
            ).concat(", ").concat(rentee_name).concat(" now has ").concat(
                text::isize_to_string(rentee_money).as_str(),
            ).concat(".")
        };
        let result: Option<(isize, usize, isize)> = Some((caller_money, rentee_id, rentee_money));
        let ghost g = old(self)@;
        {
            let p: &mut Player = &mut self.players[caller_order];
            p.money = p.money + rent;
        }
        proof {
            lemma_players_view_update(
                old(self).players@,
                caller_order as int,
                self.players@[caller_order as int],
            );
            assert(self@.players =~= g.players.update(
                caller_order as int,
                self@.players[caller_order as int],
            ));
        }
        let ghost mid = self.players@;
        {
            let q: &mut Player = &mut self.players[cur];
            q.money = q.money - rent;
        }
        proof {
            lemma_players_view_update(mid, cur as int, self.players@[cur as int]);
            assert(self@.players =~= players_view(mid).update(
                cur as int,
                self@.players[cur as int],
            ));
            let mid_g = GameV { players: players_view(mid), ..g };
            lemma_wf_same_ownership(g.players[caller_order as int], mid_g.players[
                caller_order as int
            ]);
            lemma_wf_update(g, mid_g.players[caller_order as int], caller_order as int, mid_g);
            lemma_wf_same_ownership(mid_g.players[cur as int], self@.players[cur as int]);
            lemma_wf_update(mid_g, self@.players[cur as int], cur as int, self@);
        }
        (PoorOut::new(out, String::new()), result)
    }

    /// Claims rent from the current player; a utility settles on fresh dice.
    pub fn rent(&mut self, caller_id: usize) -> (r: (PoorOut, Option<(isize, usize, isize)>))
        requires
            old(self)@.wf(),
            rent_ok(old(self)@, caller_id as int),
        ensures
            final(self)@.wf(),
            r.0.warning@.len() == 0,
            ({
                let g = old(self)@;
                let pos = g.current().position;
                let ci_opt = find_id_from(g.players, caller_id as int, 0);
                if g.current().user_id == caller_id as int {
                    final(self)@ == g && r.1 is None && r.0.out@
                        == "Can't ask rent from yourself"@
                } else if ci_opt is None {
                    final(self)@ == g && r.1 is None && r.0.out@.len() == 0
                } else if !g.players[ci_opt->Some_0].owns(pos) {
                    final(self)@ == g && r.1 is None && r.0.out@.len() == 0
                } else {
                    let ci = ci_opt->Some_0;
                    exists|total: int|
                        2 <= total <= 12 && rent_applied(
                            g,
                            ci,
                            #[trigger] rent_rate(g.players[ci], pos, total),
                            final(self)@,
                            r,
                        )
                }
            }),
    {
        let (roll_0, roll_1): (usize, usize) = roll_dice();
        let r = self.rent_with_dice(caller_id, roll_0, roll_1);
        proof {
            let g = old(self)@;
            let pos = g.current().position;
            let ci_opt = find_id_from(g.players, caller_id as int, 0);
            if g.current().user_id != caller_id as int && ci_opt is Some && g.players[
                ci_opt->Some_0
            ].owns(pos) {
                let ci = ci_opt->Some_0;
                let total = roll_0 as int + roll_1 as int;
                assert(2 <= total <= 12 && rent_applied(
                    g,
                    ci,
                    rent_rate(g.players[ci], pos, total),
                    self@,
                    r,
                ));
            }
        }
        r
    }

    /// Builds one house step on an owned street, charging the colour's fixed
    /// house price. A first house demands the full colour group; on that
    /// branch the price is charged and narrated but the recorded house count
    /// stays 0 — a deliberate quirk of this rule set, kept as stated.
    pub fn build(&mut self, user_id: usize, tile_id: usize) -> (r: (PoorOut, Option<isize>))
        requires
            old(self)@.wf(),
            tile_id < 40,
            build_priced(old(self)@, user_id as int, tile_id as int),
        ensures
            final(self)@.wf(),
            r.0.warning@.len() == 0,
            ({
                let g = old(self)@;
                let pi_opt = find_id_from(g.players, user_id as int, 0);
                if pi_opt is None {
                    final(self)@ == g && r.1 is None && r.0.out@.len() == 0
                } else {
                    let pi = pi_opt->Some_0;
                    let p = g.players[pi];
                    let hc = p.houses(tile_id as int);
                    if !p.owns(tile_id as int) {
                        final(self)@ == g && r.1 is None && r.0.out@ == "You don't own "@
                            + board::tile_name(tile_id as int)
                    } else if !(board::tile_kind(tile_id as int) is Street) {
                        final(self)@ == g && r.1 is None && r.0.out@ == "Can't build houses on "@
                            + board::tile_name(tile_id as int)
                    } else if hc == 5 {
                        final(self)@ == g && r.1 is None && r.0.out@ == "Can't build any more on "@
                            + board::tile_name(tile_id as int)
                    } else {
                        let colour = board::spec_colour_price(tile_id as int)->Some_0.0;
                        let price = board::spec_colour_price(tile_id as int)->Some_0.1 as int;
                        if hc == 0 && !board::spec_group_owned(p.ownership, colour) {
                            final(self)@ == g && r.1 is None && r.0.out@
                                == "You need to have colour monopoly to build."@
                        } else if p.money < price {
                            final(self)@ == g && r.1 is None && r.0.out@ == msg_not_enough_build(
                                p.money,
                                price,
                            )
                        } else if hc == 0 {
                            // charged and narrated, but the count stays 0
                            &&& final(self)@ == (GameV {
                                players: g.players.update(
                                    pi,
                                    PlayerV { money: p.money - price, ..p },
                                ),
                                ..g
                            })
                            &&& r.1 == Some((p.money - price) as isize)
                            &&& r.0.out@ == msg_built(false, p.money - price)
                        } else {
                            &&& final(self)@ == (GameV {
                                players: g.players.update(
                                    pi,
                                    PlayerV {
                                        money: p.money - price,
                                        ownership: p.ownership.update(
                                            tile_id as int,
                                            Some((hc + 1) as u8),
                                        ),
                                        ..p
                                    },
                                ),
                                ..g
                            })
                            &&& r.1 == Some((p.money - price) as isize)
                            &&& r.0.out@ == msg_built(hc == 4, p.money - price)
                        }
                    }
                }
            }),
    {
        let tile: board::Tile = board::board_tile(tile_id);
        let pi: usize = match find_index_by_id(&self.players, user_id) {
            Some(i) => i,
            None => {
                // Not a player
                return (PoorOut::empty(), None);
            },
        };
        proof {
            lemma_find_id_some(self@.players, user_id as int, 0, pi as int);
        }
        let house_count: u8 = match get_house(&self.players[pi].ownership, tile_id) {
            Some(h) => h,
            None => {
                let out: String = "You don't own ".to_owned().concat(tile.name);
                return (PoorOut::new(out, String::new()), None);
            },
        };
        if !matches!(tile.inner, board::TileType::Street(_)) {
            let out: String = "Can't build houses on ".to_owned().concat(tile.name);
            return (PoorOut::new(out, String::new()), None);
        } else if house_count == 5 {
            let out: String = "Can't build any more on ".to_owned().concat(tile.name);
            return (PoorOut::new(out, String::new()), None);
        }
        let (colour, price): (board::Colour, isize) = match board::colour_price(tile_id) {
            Some(cp) => cp,
            None => unreached(),
        };
        let ghost g = old(self)@;
        if house_count == 0 {
            // A first house needs the full colour group; the rule set
            // charges the price without recording the house.
            let full_colour: bool = board::group_owned(&self.players[pi].ownership, colour);
            if !full_colour {
                let out: String = "You need to have colour monopoly to build.".to_owned();
                return (PoorOut::new(out, String::new()), None);
            } else if self.players[pi].money < price {
                let out: String = msg_not_enough_build_exec(self.players[pi].money, price);
                return (PoorOut::new(out, String::new()), None);
            }
            {
                let p: &mut Player = &mut self.players[pi];
                p.money = p.money - price;
            }
            proof {
                lemma_players_view_update(old(self).players@, pi as int, self.players@[pi as int]);
                assert(self@.players =~= g.players.update(pi as int, self@.players[pi as int]));
                lemma_wf_same_ownership(g.players[pi as int], self@.players[pi as int]);
                lemma_wf_update(g, self@.players[pi as int], pi as int, self@);
            }
            let money: isize = self.players[pi].money;
            let out: String = "Built 3 houses. ".to_owned().concat(
                text::isize_to_string(money).as_str(),
            ).concat(" in the bank");
            (PoorOut::new(out, String::new()), Some(money))
        } else if self.players[pi].money < price {
            let out: String = msg_not_enough_build_exec(self.players[pi].money, price);
            (PoorOut::new(out, String::new()), None)
        } else {
            {
                let p: &mut Player = &mut self.players[pi];
                p.money = p.money - price;
                p.ownership.set(tile_id, Some(house_count + 1));
                proof {
                    assert forall|t: int| 0 <= t < 40 implies #[trigger] p@.houses(t) <= 5 by {
                        assert(old(self)@.players[pi as int].houses(t) <= 5);
                    }
                }
            }
            proof {
                lemma_players_view_update(old(self).players@, pi as int, self.players@[pi as int]);
                assert(self@.players =~= g.players.update(pi as int, self@.players[pi as int]));
                assert(forall|t: int|
                    #[trigger] self@.players[pi as int].owns(t) ==> g.players[pi as int].owns(t));
                lemma_wf_update(g, self@.players[pi as int], pi as int, self@);
            }
            let money: isize = self.players[pi].money;
            let out: String = if house_count == 4 {
                "Built 3 hotels. ".to_owned().concat(text::isize_to_string(money).as_str()).concat(
                    " in the bank",
                )
            } else {
                "Built 3 houses. ".to_owned().concat(text::isize_to_string(money).as_str()).concat(
                    " in the bank",
                )
            };
            (PoorOut::new(out, String::new()), Some(money))
        }
    }

    /// Resolves one roll with known dice. Movement is cyclic modulo 40 with
    /// a single +200 credit when the move crosses GO; a third consecutive
    /// double sends the mover to jail and skips the landed tile entirely.
    /// A non-double roll that leaves the match waiting on another roll
    /// passes the turn to the next roster index. A jail trip — the third
    /// consecutive double, or the Go To Jail tile — ends the roll's
    /// resolution at once without passing the turn: "ends the turn
    /// immediately" is read as ending this roll's resolution, since a
    /// double otherwise keeps the turn with the mover.
    #[verifier::rlimit(100)]
    #[verifier::spinoff_prover]
    pub fn roll_with_dice(&mut self, caller_id: usize, roll_1: usize, roll_2: usize) -> (r: (
        PoorOut,
        Option<RollResult>,
    ))
        requires
            old(self)@.wf(),
            1 <= roll_1 <= 6,
            1 <= roll_2 <= 6,
            roll_money_ok(old(self)@, caller_id as int),
        ensures
            final(self)@.wf(),
            r.0.warning@.len() == 0,
            roll_noop(old(self)@, caller_id as int) ==> final(self)@ == old(self)@ && r.1 is None
                && r.0.out@.len() == 0,
            !roll_noop(old(self)@, caller_id as int) ==> r.0.out@.len() > 0 && exists|
                c: board::CardV,
            |
                {
                    &&& #[trigger] card_of_tile(
                        moved_pos(old(self)@.current().position, roll_1 as int, roll_2 as int),
                        c,
                    )
                    &&& final(self)@ == spec_roll(
                        old(self)@,
                        roll_1 as int,
                        roll_2 as int,
                        c.effect,
                    ).0
                    &&& roll_result_matches(
                        r.1,
                        spec_roll(old(self)@, roll_1 as int, roll_2 as int, c.effect).1,
                    )
                    &&& r.0.out@ == roll_narration(old(self)@, roll_1 as int, roll_2 as int, c)
                },
    {
        if !matches!(self.status, Status::Roll) {
            // Do nothing if it's not the time to roll
            return (PoorOut::empty(), None);
        }
        let cur: usize = self.current_player;
        if self.players[cur].user_id != caller_id {
            // Do nothing if it's not the caller's turn to roll
            return (PoorOut::empty(), None);
        }
        let ghost g = old(self)@;
        let player_count: usize = self.players.len();
        let rolled_double: bool = roll_1 == roll_2;
        let pos0: usize = self.players[cur].position;
        let move_to: usize = roll_1 + roll_2 + pos0;
        let (looped, position): (bool, usize) = if move_to >= 40 {
            (true, move_to - 40)
        } else {
            (false, move_to)
        };
        let owned: bool = check_owner(&self.players, position);
        let landed: board::Tile = board::board_tile(position);
        let money0: isize = self.players[cur].money;
        let streak0: u8 = self.players[cur].streak;
        let mut output: PoorOut = {
            let name: &str = match &self.players[cur].username {
                Some(s) => s.as_str(),
                None => "None",
            };
            proof {
                reveal_strlit(" has rolled ");
            }
            PoorOut::new(
                ext::debug_quoted(name).concat(" has rolled ").concat(
                    text::usize_to_string(roll_1).as_str(),
                ).concat(" and ").concat(text::usize_to_string(roll_2).as_str()).concat(
                    ", now on ",
                ).concat(landed.name).concat("."),
                String::new(),
            )
        };
        let money1: isize = if looped {
            money0 + 200
        } else {
            money0
        };
        if looped {
            output = output.merge_out("Passed GO.");
        }
        if rolled_double && streak0 >= 2 {
            output = output.merge_out("Rolled double 3 times in a row, go to jail.");
            let ghost before = self.players@;
            {
                let p: &mut Player = &mut self.players[cur];
                p.money = money1;
                p.go_to_jail();
            }
            proof {
                lemma_players_view_update(before, cur as int, self.players@[cur as int]);
                assert(self@.players =~= g.players.update(cur as int, self@.players[cur as int]));
                lemma_wf_same_ownership(g.players[cur as int], self@.players[cur as int]);
                lemma_wf_update(g, self@.players[cur as int], cur as int, self@);
                lemma_default_card(position as int);
                assert(self@ == spec_roll(
                    g,
                    roll_1 as int,
                    roll_2 as int,
                    default_card(position as int).effect,
                ).0);
                assert(output.out@ == roll_narration(
                    g,
                    roll_1 as int,
                    roll_2 as int,
                    default_card(position as int),
                ));
            }
            return (output, Some((10, money1, true, 0, false)));
        }
        let streak2: u8 = if rolled_double {
            streak0 + 1
        } else {
            0
        };
        let own_dest: bool = board::contains_key(&self.players[cur].ownership, position);
        let ghost before = self.players@;
        {
            let p: &mut Player = &mut self.players[cur];
            p.money = money1;
            p.position = position;
            p.streak = streak2;
        }
        proof {
            lemma_players_view_update(before, cur as int, self.players@[cur as int]);
            assert(self@.players =~= g.players.update(cur as int, self@.players[cur as int]));
            lemma_wf_same_ownership(g.players[cur as int], self@.players[cur as int]);
            lemma_wf_update(g, self@.players[cur as int], cur as int, self@);
        }
        if own_dest {
            if !rolled_double {
                self.current_player = if cur + 1 < player_count {
                    cur + 1
                } else {
                    0
                };
            }
            proof {
                lemma_default_card(position as int);
                assert(self@ == spec_roll(
                    g,
                    roll_1 as int,
                    roll_2 as int,
                    default_card(position as int).effect,
                ).0);
                assert(output.out@ == roll_narration(
                    g,
                    roll_1 as int,
                    roll_2 as int,
                    default_card(position as int),
                ));
            }
            return (output, Some((position, money1, false, streak2, false)));
        }
        let ghost p1 = self@.players[cur as int];
        if !owned && matches!(
            landed.inner,
            board::TileType::Street(_) | board::TileType::Railroad(_) | board::TileType::Utility(_),
        ) {
            self.status = Status::Buy;
            let cost: isize = match landed.inner {
                board::TileType::Street(prop) => prop.get_cost(),
                board::TileType::Railroad(prop) => prop.get_cost(),
                board::TileType::Utility(prop) => prop.get_cost(),
                _ => unreached(),
            };
            output = output.merge_out(
                "Buy for ".to_owned().concat(text::isize_to_string(cost).as_str()).concat(
                    " or start an auction.",
                ).as_str(),
            );
            proof {
                lemma_default_card(position as int);
                assert(self@ == spec_roll(
                    g,
                    roll_1 as int,
                    roll_2 as int,
                    default_card(position as int).effect,
                ).0);
                assert(output.out@ == roll_narration(
                    g,
                    roll_1 as int,
                    roll_2 as int,
                    default_card(position as int),
                ));
            }
            return (output, Some((position, money1, false, streak2, true)));
        }
        let ghost mut c: board::CardV = no_card();
        match landed.inner {
            board::TileType::Chance => {
                let ghost before2 = self.players@;
                let note: &'static str = {
                    let p: &mut Player = &mut self.players[cur];
                    p.roll_card(true)
                };
                proof {
                    lemma_players_view_update(before2, cur as int, self.players@[cur as int]);
                    assert(self@.players =~= g.players.update(
                        cur as int,
                        self@.players[cur as int],
                    ));
                    let i = choose|i: int|
                        0 <= i < 16 && {
                            let d = #[trigger] deck_card(true, i);
                            self@.players[cur as int] == apply_card_v(p1, d.effect) && note@
                                == d.note
                        };
                    c = deck_card(true, i);
                    assert(card_of_tile(position as int, c));
                }
                output = output.merge_out(note);
            },
            board::TileType::Chest => {
                let ghost before2 = self.players@;
                let note: &'static str = {
                    let p: &mut Player = &mut self.players[cur];
                    p.roll_card(false)
                };
                proof {
                    lemma_players_view_update(before2, cur as int, self.players@[cur as int]);
                    assert(self@.players =~= g.players.update(
                        cur as int,
                        self@.players[cur as int],
                    ));
                    let i = choose|i: int|
                        0 <= i < 16 && {
                            let d = #[trigger] deck_card(false, i);
                            self@.players[cur as int] == apply_card_v(p1, d.effect) && note@
                                == d.note
                        };
                    c = deck_card(false, i);
                    assert(card_of_tile(position as int, c));
                }
                output = output.merge_out(note);
            },
            board::TileType::GoToJail => {
                let ghost before2 = self.players@;
                {
                    let p: &mut Player = &mut self.players[cur];
                    p.go_to_jail();
                }
                proof {
                    lemma_players_view_update(before2, cur as int, self.players@[cur as int]);
                    assert(self@.players =~= g.players.update(
                        cur as int,
                        self@.players[cur as int],
                    ));
                    lemma_wf_same_ownership(g.players[cur as int], self@.players[cur as int]);
                    lemma_wf_update(g, self@.players[cur as int], cur as int, self@);
                    lemma_default_card(position as int);
                    assert(self@ == spec_roll(
                        g,
                        roll_1 as int,
                        roll_2 as int,
                        default_card(position as int).effect,
                    ).0);
                    assert(output.out@ == roll_narration(
                        g,
                        roll_1 as int,
                        roll_2 as int,
                        default_card(position as int),
                    ));
                }
                return (output, Some((10, money1, true, 0, false)));
            },
            board::TileType::TaxIncome => {
                let ghost before2 = self.players@;
                {
                    let p: &mut Player = &mut self.players[cur];
                    p.money = p.money - 200;
                }
                proof {
                    lemma_players_view_update(before2, cur as int, self.players@[cur as int]);
                    assert(self@.players =~= g.players.update(
                        cur as int,
                        self@.players[cur as int],
                    ));
                }
            },
            board::TileType::TaxLuxury => {
                let ghost before2 = self.players@;
                {
                    let p: &mut Player = &mut self.players[cur];
                    p.money = p.money - 100;
                }
                proof {
                    lemma_players_view_update(before2, cur as int, self.players@[cur as int]);
                    assert(self@.players =~= g.players.update(
                        cur as int,
                        self@.players[cur as int],
                    ));
                }
            },
            _ => {
                proof {
                    lemma_default_card(position as int);
                    assert(c == default_card(position as int));
                }
            },
        }
        let is_roll: bool = matches!(self.status, Status::Roll);
        if is_roll && !rolled_double {
            self.current_player = if cur + 1 < player_count {
                cur + 1
            } else {
                0
            };
        }
        let money_final: isize = self.players[cur].money;
        output = output.merge_out(
            text::isize_to_string(money_final).concat(" in the bank.").as_str(),
        );
        proof {
            let q = self@.players[cur as int];
            assert(q.ownership == g.players[cur as int].ownership);
            lemma_wf_same_ownership(g.players[cur as int], q);
            lemma_wf_update(g, q, cur as int, GameV { players: self@.players, ..g });
            assert(self@.wf());
            assert(card_of_tile(position as int, c));
            assert(self@ == spec_roll(g, roll_1 as int, roll_2 as int, c.effect).0);
            assert(roll_result_matches(
                Some((position, money_final, false, streak2, !is_roll)),
                spec_roll(g, roll_1 as int, roll_2 as int, c.effect).1,
            ));
            assert(output.out@ == roll_narration(g, roll_1 as int, roll_2 as int, c));
        }
        (output, Some((position, money_final, false, streak2, !is_roll)))
    }

    /// Performs one roll of the current player: two fresh dice, movement,
    /// and the landed tile's effect.
    pub fn roll(&mut self, caller_id: usize) -> (r: (PoorOut, Option<RollResult>))
        requires
            old(self)@.wf(),
            roll_money_ok(old(self)@, caller_id as int),
        ensures
            final(self)@.wf(),
            r.0.warning@.len() == 0,
            roll_noop(old(self)@, caller_id as int) ==> final(self)@ == old(self)@ && r.1 is None
                && r.0.out@.len() == 0,
            !roll_noop(old(self)@, caller_id as int) ==> r.0.out@.len() > 0 && exists|
                d1: int,
                d2: int,
                c: board::CardV,
            |
                {
                    &&& 1 <= d1 <= 6 && 1 <= d2 <= 6
                    &&& #[trigger] card_of_tile(
                        moved_pos(old(self)@.current().position, d1, d2),
                        c,
                    )
                    &&& final(self)@ == #[trigger] spec_roll(old(self)@, d1, d2, c.effect).0
                    &&& roll_result_matches(r.1, spec_roll(old(self)@, d1, d2, c.effect).1)
                    &&& r.0.out@ == roll_narration(old(self)@, d1, d2, c)
                },
    {
        let (roll_1, roll_2): (usize, usize) = roll_dice();
        let r = self.roll_with_dice(caller_id, roll_1, roll_2);
        proof {
            if !roll_noop(old(self)@, caller_id as int) {
                let c = choose|c: board::CardV|
                    {
                        &&& #[trigger] card_of_tile(
                            moved_pos(old(self)@.current().position, roll_1 as int, roll_2 as int),
                            c,
                        )
                        &&& self@ == spec_roll(old(self)@, roll_1 as int, roll_2 as int, c.effect).0
                        &&& roll_result_matches(
                            r.1,
                            spec_roll(old(self)@, roll_1 as int, roll_2 as int, c.effect).1,
                        )
                        &&& r.0.out@ == roll_narration(
                            old(self)@,
                            roll_1 as int,
                            roll_2 as int,
                            c,
                        )
                    };
                assert(card_of_tile(
                    moved_pos(old(self)@.current().position, roll_1 as int, roll_2 as int),
                    c,
                ) && self@ == spec_roll(old(self)@, roll_1 as int, roll_2 as int, c.effect).0
                    && roll_result_matches(
                    r.1,
                    spec_roll(old(self)@, roll_1 as int, roll_2 as int, c.effect).1,
                ) && r.0.out@ == roll_narration(old(self)@, roll_1 as int, roll_2 as int, c));
            }
        }
        r
    }

    /// Rebuilds a match from its stored form at a known clock reading, and
    /// resolves an overdue auction as a side effect: once more than 10
    /// seconds have passed since the last accepted bid, the tile transfers
    /// to the highest bidder at the tile's fixed book cost (not the winning
    /// bid amount), and the turn advances.
    pub fn deserialize_at(game: &SerGame, now_sec: usize) -> (r: (Game, Option<(isize, usize)>))
        requires
            wf_ser(*game),
        ensures
            r.0@.wf(),
            ({
                let ps = ser_players_view(game.players@);
                if game.status@ == "auction"@ && now_sec - game.bid_time_sec > 10 {
                    let pos = ps[game.current_player as int].position;
                    let bi = find_id_from(ps, game.bidder_id as int, 0)->Some_0;
                    let winner = PlayerV {
                        money: ps[bi].money - board::tile_cost(pos),
                        ownership: ps[bi].ownership.update(pos, Some(0u8)),
                        ..ps[bi]
                    };
                    &&& r.0@ == (GameV {
                        current_player: if game.current_player + 1 < ps.len() {
                            game.current_player + 1
                        } else {
                            0
                        },
                        players: ps.update(bi, winner),
                        status: Status::Roll,
                        biggest_bid: game.biggest_bid as int,
                        bid_time_sec: game.bid_time_sec as int,
                        bidder_id: game.bidder_id as int,
                    })
                    &&& (r.1 matches Some(t) && t.0 as int == winner.money && t.1 as int == pos)
                } else {
                    &&& r.0@ == (GameV {
                        current_player: game.current_player as int,
                        players: ps,
                        status: status_of(game.status@),
                        biggest_bid: game.biggest_bid as int,
                        bid_time_sec: game.bid_time_sec as int,
                        bidder_id: game.bidder_id as int,
                    })
                    &&& r.1 is None
                }
            }),
    {
        proof {
            lemma_status_tags_distinct();
        }
        let ghost ps = ser_players_view(game.players@);
        let status0: Status = Status::deserialize(game.status.as_str());
        let mut status: Status = status0;
        let mut current_player: usize = game.current_player;
        let mut players: Vec<Player> = Vec::new();
        let mut i: usize = 0;
        while i < game.players.len()
            invariant
                i <= game.players@.len(),
                players@.len() == i,
                ps == ser_players_view(game.players@),
                forall|k: int| 0 <= k < i ==> #[trigger] players@[k]@ == ps[k],
            decreases game.players@.len() - i,
        {
            players.push(Player::deserialize(&game.players[i]));
            i = i + 1;
        }
        proof {
            assert(players_view(players@) =~= ps);
        }
        let bid_time_sec: usize = game.bid_time_sec;
        let expired: bool = matches!(status, Status::Auction) && now_sec >= bid_time_sec && now_sec
            - bid_time_sec > 10;
        let maybe_auction: Option<(isize, usize)> = if expired {
            // 10 seconds passed, the biggest bid gets the purchase
            status = Status::Roll;
            let tile_id: usize = players[current_player].position;
            if current_player + 1 < players.len() {
                current_player = current_player + 1;
            } else {
                current_player = 0;
            }
            let bidder_idx: usize = match find_index_by_id(&players, game.bidder_id) {
                Some(b) => b,
                None => unreached(),
            };
            proof {
                lemma_find_id_some(ps, game.bidder_id as int, 0, bidder_idx as int);
            }
            let ghost before = players@;
            {
                let bidder: &mut Player = &mut players[bidder_idx];
                bidder.win_bid(tile_id);
            }
            proof {
                lemma_players_view_update(before, bidder_idx as int, players@[bidder_idx as int]);
                assert(players_view(players@) =~= ps.update(
                    bidder_idx as int,
                    players@[bidder_idx as int]@,
                ));
            }
            let money: isize = players[bidder_idx].money;
            Some((money, tile_id))
        } else {
            None
        };
        let r = Game {
            current_player,
            players,
            status,
            biggest_bid: game.biggest_bid,
            bid_time_sec,
            bidder_id: game.bidder_id,
        };
        proof {
            if expired {
                let pos = ps[game.current_player as int].position;
                let bi = find_id_from(ps, game.bidder_id as int, 0)->Some_0;
                let winner = r@.players[bi];
                let base = GameV { players: ps, ..r@ };
                assert(base.wf());
                assert forall|t: int| #[trigger] winner.owns(t) && !ps[bi].owns(t) implies !has_owner(
                    ps,
                    t,
                ) by {
                    assert(t == pos);
                }
                lemma_wf_update(base, winner, bi, r@);
            } else {
                assert(r@.players == ps);
            }
        }
        (r, maybe_auction)
    }

    /// Rebuilds a match from its stored form at the clock now; an auction
    /// more than 10 seconds past its last bid settles, and the settlement
    /// (the winner's new balance and the tile) is reported.
    pub fn deserialize(game: &SerGame) -> (r: (Game, Option<(isize, usize)>))
        requires
            wf_ser(*game),
        ensures
            r.0@.wf(),
            ({
                let ps = ser_players_view(game.players@);
                let base = GameV {
                    current_player: game.current_player as int,
                    players: ps,
                    status: status_of(game.status@),
                    biggest_bid: game.biggest_bid as int,
                    bid_time_sec: game.bid_time_sec as int,
                    bidder_id: game.bidder_id as int,
                };
                if game.status@ != "auction"@ {
                    r.0@ == base && r.1 is None
                } else {
                    let pos = ps[game.current_player as int].position;
                    let bi = find_id_from(ps, game.bidder_id as int, 0)->Some_0;
                    let winner = PlayerV {
                        money: ps[bi].money - board::tile_cost(pos),
                        ownership: ps[bi].ownership.update(pos, Some(0u8)),
                        ..ps[bi]
                    };
                    (r.0@ == base && r.1 is None) || {
                        &&& r.0@ == (GameV {
                            current_player: if game.current_player + 1 < ps.len() {
                                game.current_player + 1
                            } else {
                                0
                            },
                            players: ps.update(bi, winner),
                            status: Status::Roll,
                            ..base
                        })
                        &&& (r.1 matches Some(t) && t.0 as int == winner.money && t.1 as int
                            == pos)
                    }
                }
            }),
    {
        let now: usize = ext::now_sec();
        Self::deserialize_at(game, now)
    }

    /// Narrates the current phase and turn, and, when the caller owns tiles,
    /// an itemized listing of them in ascending tile order.
    pub fn get_status(&self, caller_id: usize) -> (r: String)
        requires
            self@.wf(),
        ensures
            r@ == spec_get_status(self@, caller_id as int),
    {
        let cur: usize = self.current_player;
        let game_status: String = {
            let name: &str = match &self.players[cur].username {
                Some(s) => s.as_str(),
                None => "None",
            };
            match self.status {
                Status::Roll => "Waiting for ".to_owned().concat(name).concat(
                    " to roll the dice.",
                ),
                Status::Buy => "Waiting for ".to_owned().concat(name).concat(
                    " to buy or auction off a property.",
                ),
                Status::Auction => "Waiting for bid submissions.".to_owned(),
            }
        };
        let ci: usize = match find_index_by_id(&self.players, caller_id) {
            Some(i) => i,
            None => {
                return game_status;
            },
        };
        proof {
            lemma_find_id_some(self@.players, caller_id as int, 0, ci as int);
        }
        let ghost caller_v = self@.players[ci as int];
        let mut rows: Vec<String> = Vec::new();
        let mut t: usize = 0;
        while t < 40
            invariant
                t <= 40,
                ci < self.players@.len(),
                caller_v == players_view(self.players@)[ci as int],
                caller_v.wf(),
                rows@.map_values(|s: String| s@) =~= owned_rows(caller_v, t as int),
            decreases 40 - t,
        {
            match get_house(&self.players[ci].ownership, t) {
                Some(h) => {
                    let line: String = text::usize_to_string(t).concat(". ").concat(
                        board::board_tile(t).name,
                    ).concat(" - ").concat(text::u8_to_string(h).as_str()).concat(" house(s)");
                    rows.push(line);
                    proof {
                        assert(rows@.map_values(|s: String| s@) =~= owned_rows(
                            caller_v,
                            t + 1 as int,
                        ));
                    }
                },
                None => {},
            }
            t = t + 1;
        }
        if rows.len() == 0 {
            return game_status;
        }
        let caller_name: &str = match &self.players[ci].username {
            Some(s) => s.as_str(),
            None => "None",
        };
        let caller_status: String = ext::join_lines(&rows);
        game_status.concat("\n").concat(caller_name).concat(" owns:\n").concat(
            caller_status.as_str(),
        )
    }

    /// The position of a participant, or the out-of-range sentinel 101 when
    /// the user is not part of the match.
    pub fn get_position(&self, user_id: usize) -> (r: usize)
        ensures
            match find_id_from(self@.players, user_id as int, 0) {
                Some(i) => r as int == self@.players[i].position,
                None => r == 101,
            },
    {
        match find_index_by_id(&self.players, user_id) {
            Some(i) => self.players[i].position,
            None => {
                // Out-of-range sentinel if caller is not a player
                101
            },
        }
    }
}

} // verus!
