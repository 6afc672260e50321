//! Host-facing value types: narration output and the flat, host-storable
//! serialized form of a match.

use vstd::prelude::*;
use vstd::string::StringExecFns;

verus! {

/// The separator inserted between two merged narration fragments.
pub open spec fn sep() -> Seq<char> {
    " \n"@
}

/// How two narration fragments combine: an empty side is dropped, two
/// non-empty sides are joined with the separator.
pub open spec fn spec_merge(a: Seq<char>, b: Seq<char>) -> Seq<char> {
    if b.len() == 0 {
        a
    } else if a.len() == 0 {
        b
    } else {
        a + sep() + b
    }
}

/// Narration handed back to the host: a main message and a warning channel.
pub struct PoorOut {
    pub out: String,
    pub warning: String,
}

impl PoorOut {
    pub fn new(out: String, warning: String) -> (r: PoorOut)
        ensures
            r.out@ == out@,
            r.warning@ == warning@,
    {
        PoorOut { out, warning }
    }

    pub fn empty() -> (r: PoorOut)
        ensures
            r.out@ == Seq::<char>::empty(),
            r.warning@ == Seq::<char>::empty(),
    {
        PoorOut { out: String::new(), warning: String::new() }
    }

    pub fn merge(self, rhs: PoorOut) -> (r: PoorOut)
        ensures
            r.out@ == spec_merge(self.out@, rhs.out@),
            r.warning@ == spec_merge(self.warning@, rhs.warning@),
    {
        let out: String = if rhs.out.as_str().is_empty() {
            self.out
        } else if self.out.as_str().is_empty() {
            rhs.out
        } else {
            self.out.concat(" \n").concat(rhs.out.as_str())
        };
        let warning: String = if rhs.warning.as_str().is_empty() {
            self.warning
        } else if self.warning.as_str().is_empty() {
            rhs.warning
        } else {
            self.warning.concat(" \n").concat(rhs.warning.as_str())
        };
        PoorOut { out, warning }
    }

    /// Appends a fragment to the main message, always inserting the separator.
    pub fn merge_out(self, rhs: &str) -> (r: PoorOut)
        ensures
            r.out@ == self.out@ + sep() + rhs@,
            r.warning@ == self.warning@,
    {
        PoorOut { out: self.out.concat(" \n").concat(rhs), warning: self.warning }
    }
}

/// The narration type handed across the host boundary.
pub struct PoorResult {
    pub out: String,
    pub warning: String,
}

impl From<PoorOut> for PoorResult {
    fn from(value: PoorOut) -> (r: PoorResult) {
        PoorResult { out: value.out, warning: value.warning }
    }
}

impl vstd::std_specs::convert::FromSpecImpl<PoorOut> for PoorResult {
    open spec fn obeys_from_spec() -> bool {
        true
    }

    open spec fn from_spec(t: PoorOut) -> PoorResult {
        PoorResult { out: t.out, warning: t.warning }
    }
}

/// Repackages an action's outcome for the host boundary.
pub fn pass_poor<T>(pair: (PoorOut, T)) -> (r: (PoorResult, T))
    ensures
        r.0.out@ == pair.0.out@,
        r.0.warning@ == pair.0.warning@,
        r.1 == pair.1,
{
    let (out, other) = pair;
    (PoorResult::from(out), other)
}

/// The flat, host-storable form of one participant. `ownership` is a dense
/// map: index = tile id, `Some(h)` = owned with `h` houses.
pub struct SerPlayer {
    pub user_id: usize,
    pub username: Option<String>,
    pub ownership: Vec<Option<u8>>,
    pub position: usize,
    pub money: isize,
    pub is_jailed: bool,
    pub streak: u8,
}

/// The flat, host-storable form of a match.
pub struct SerGame {
    pub current_player: usize,
    pub status: String,
    pub players: Vec<SerPlayer>,
    pub biggest_bid: isize,
    pub bid_time_sec: usize,
    pub bidder_id: usize,
}

impl SerGame {
    pub fn new(
        current_player: usize,
        status: String,
        players: Vec<SerPlayer>,
        biggest_bid: isize,
        bid_time_sec: usize,
        bidder_id: usize,
    ) -> (r: SerGame)
        ensures
            r.current_player == current_player,
            r.status@ == status@,
            r.players == players,
            r.biggest_bid == biggest_bid,
            r.bid_time_sec == bid_time_sec,
            r.bidder_id == bidder_id,
    {
        SerGame { current_player, status, players, biggest_bid, bid_time_sec, bidder_id }
    }
}

} // verus!
