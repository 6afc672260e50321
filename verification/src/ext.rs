//! Trusted bindings to outside facilities: dice and card draws from `rand`,
//! the system clock from `std`, and string joining from `joinery`. Every
//! other function of the crate is verified against these contracts.

use vstd::prelude::*;

use joinery::JoinableIterator;
use rand::distributions::Distribution;
use rand::seq::SliceRandom;

use crate::board::Card;

verus! {

/// One die throw. Relies on `rand::distributions::Uniform`: `Uniform::new(1, 7)`
/// samples uniformly from the half-open range `[1, 7)`.
#[verifier::external_body]
pub fn roll_die() -> (r: usize)
    ensures
        1 <= r <= 6,
{
    let mut rng: rand::rngs::ThreadRng = rand::thread_rng();
    rand::distributions::Uniform::new(1usize, 7usize).sample(&mut rng)
}

/// Seconds since the Unix epoch. Relies on `std::time::SystemTime::now`; the
/// result depends on the machine's clock, so nothing is promised of it. A
/// clock before the epoch reads as zero and a count beyond `usize`
/// saturates, so the call never panics.
#[verifier::external_body]
pub fn now_sec() -> usize {
    let now = std::time::SystemTime::now();
    let secs: u64 = now
        .duration_since(std::time::UNIX_EPOCH)
        .map(|elapsed| elapsed.as_secs())
        .unwrap_or(0);
    usize::try_from(secs).unwrap_or(usize::MAX)
}

/// What Rust's `Debug` formatting of a string yields: the text quoted, with
/// the escapes `Debug` writes.
pub uninterp spec fn debug_str(s: Seq<char>) -> Seq<char>;

/// Relies on `str`'s `Debug` formatting (`format!` with `{:?}`): the result
/// depends on the characters alone.
#[verifier::external_body]
pub fn debug_quoted(s: &str) -> (r: String)
    ensures
        r@ == debug_str(s@),
{
    format!("{:?}", s)
}

/// A draw from a non-empty deck. Relies on `rand::seq::SliceRandom::choose`,
/// which returns `Some` of a uniformly chosen element of a non-empty slice.
#[verifier::external_body]
pub fn pick_card(deck: &Vec<Card>) -> (r: Card)
    requires
        deck@.len() > 0,
    ensures
        deck@.contains(r),
{
    let mut rng: rand::rngs::ThreadRng = rand::thread_rng();
    *deck.as_slice().choose(&mut rng).expect("deck is not empty")
}

/// The items in order with a newline between consecutive items.
pub open spec fn spec_join_lines(items: Seq<Seq<char>>) -> Seq<char>
    decreases items.len(),
{
    if items.len() == 0 {
        Seq::empty()
    } else if items.len() == 1 {
        items[0]
    } else {
        spec_join_lines(items.drop_last()) + seq!['\n'] + items.last()
    }
}

/// Joins the items with a newline between consecutive items. Relies on
/// `joinery::JoinableIterator::join_with`: displaying the returned `Join`
/// writes the items in order, with the separator between consecutive items.
#[verifier::external_body]
pub fn join_lines(items: &Vec<String>) -> (r: String)
    ensures
        r@ == spec_join_lines(items@.map_values(|s: String| s@)),
{
    items.iter().join_with('\n').to_string()
}

} // verus!
