use monopoly::board::Card;
use monopoly::board::CardEffect;
use monopoly::board::Railroad;
use monopoly::board::Utility;
use monopoly::board::chance_roll;
use monopoly::board::chest_roll;
use monopoly::game::Player;
use monopoly::game::Status;
use monopoly::io::PoorOut;
use monopoly::io::SerPlayer;
use monopoly::io::pass_poor;
use monopoly::text::isize_to_string;
use monopoly::text::usize_to_string;

fn player_owning(owned: &[usize]) -> Player {
    let mut ownership: Vec<Option<u8>> = vec![None; 40];
    for &t in owned {
        ownership[t] = Some(0);
    }
    Player::deserialize(&SerPlayer {
        user_id: 1,
        username: None,
        ownership,
        position: 0,
        money: 1500,
        is_jailed: false,
        streak: 0,
    })
}

#[test]
fn railroad_rent_doubles_per_railroad() {
    assert_eq!(Railroad::calculate_rent(&player_owning(&[5])), 25);
    assert_eq!(Railroad::calculate_rent(&player_owning(&[5, 15])), 50);
    assert_eq!(Railroad::calculate_rent(&player_owning(&[5, 15, 25])), 100);
    assert_eq!(Railroad::calculate_rent(&player_owning(&[5, 15, 25, 35])), 200);
}

#[test]
fn utility_rent_multiplies_the_dice_total() {
    // both utilities: ten times the throw; otherwise four times
    assert_eq!(Utility::calculate_rent_with(&player_owning(&[12, 28]), 3, 4), 70);
    assert_eq!(Utility::calculate_rent_with(&player_owning(&[12]), 3, 4), 28);
    assert_eq!(Utility::calculate_rent_with(&player_owning(&[28]), 1, 1), 8);
    // with fresh dice the rent is a multiple in the documented range
    let r = Utility::calculate_rent(&player_owning(&[12, 28]));
    assert!(r % 10 == 0 && (20..=120).contains(&r));
    let r = Utility::calculate_rent(&player_owning(&[12]));
    assert!(r % 4 == 0 && (8..=48).contains(&r));
}

fn apply(card: CardEffect, position: usize, money: isize) -> (usize, isize) {
    let mut p = Player::new(1, None);
    let mut sp = p.serialize();
    sp.position = position;
    sp.money = money;
    p = Player::deserialize(&sp);
    p.apply_card(card);
    let out = p.serialize();
    (out.position, out.money)
}

#[test]
fn card_effects() {
    assert_eq!(apply(CardEffect::Money(50), 0, 1500), (0, 1550));
    assert_eq!(apply(CardEffect::Money(-100), 0, 1500), (0, 1400));
    // a relocation behind the current position credits a GO pass
    assert_eq!(apply(CardEffect::Position(5), 20, 1500), (5, 1700));
    assert_eq!(apply(CardEffect::Position(24), 20, 1500), (24, 1500));
    assert_eq!(apply(CardEffect::GoBack3, 1, 1500), (38, 1500));
    assert_eq!(apply(CardEffect::GoBack3, 10, 1500), (7, 1500));
    assert_eq!(apply(CardEffect::NearestStation, 7, 1500), (15, 1500));
    assert_eq!(apply(CardEffect::NearestStation, 36, 1500), (5, 1500));
    assert_eq!(apply(CardEffect::NearestUtility, 7, 1500), (12, 1500));
    assert_eq!(apply(CardEffect::NearestUtility, 22, 1500), (28, 1500));
    // recognized but not yet supported tags leave the state unchanged
    assert_eq!(apply(CardEffect::GetOutOfJail, 9, 1500), (9, 1500));
    assert_eq!(apply(CardEffect::GoToJail, 9, 1500), (9, 1500));
    assert_eq!(apply(CardEffect::PayAll(50), 9, 1500), (9, 1500));
    assert_eq!(apply(CardEffect::Repairs, 9, 1500), (9, 1500));
    assert_eq!(apply(CardEffect::Assession, 9, 1500), (9, 1500));
}

#[test]
fn card_draws_come_from_the_decks() {
    for _ in 0..20 {
        let c: Card = chance_roll();
        assert!(!c.note.is_empty());
        let c: Card = chest_roll();
        assert!(!c.note.is_empty());
    }
}

#[test]
fn status_tags_round_trip() {
    assert_eq!(Status::Roll.serialize(), "roll");
    assert_eq!(Status::Buy.serialize(), "buy");
    assert_eq!(Status::Auction.serialize(), "auction");
    assert!(matches!(Status::deserialize("roll"), Status::Roll));
    assert!(matches!(Status::deserialize("buy"), Status::Buy));
    assert!(matches!(Status::deserialize("auction"), Status::Auction));
}

#[test]
fn player_codec_round_trips() {
    let p = player_owning(&[3, 12]);
    let ser = p.serialize();
    let back = Player::deserialize(&ser).serialize();
    assert_eq!(ser.user_id, back.user_id);
    assert_eq!(ser.username, back.username);
    assert_eq!(ser.ownership, back.ownership);
    assert_eq!(ser.position, back.position);
    assert_eq!(ser.money, back.money);
    assert_eq!(ser.is_jailed, back.is_jailed);
    assert_eq!(ser.streak, back.streak);
}

#[test]
fn try_buying_deducts_and_records() {
    let mut p = Player::new(1, Some("Ann".to_string()));
    let mut sp = p.serialize();
    sp.position = 5;
    p = Player::deserialize(&sp);
    let (out, bought) = p.try_buying("Kings Cross Station", monopoly::board::Railroad::new(200));
    assert!(bought);
    assert_eq!(out.out, "Purchased Kings Cross Station. \n1300 in the bank.");
    let after = p.serialize();
    assert_eq!(after.money, 1300);
    assert_eq!(after.ownership[5], Some(0));

    let (out, bought) = {
        let mut poor = Player::deserialize(&SerPlayer {
            user_id: 2,
            username: None,
            ownership: vec![None; 40],
            position: 1,
            money: 10,
            is_jailed: false,
            streak: 0,
        });
        poor.try_buying("Old Kent Road", monopoly::board::Street::new(60, [2, 10, 30, 90, 160, 250]))
    };
    assert!(!bought);
    assert_eq!(out.out, "Not enough money. \n10 in the bank. Old Kent Road costs 60");
}

#[test]
fn narration_merges() {
    let a = PoorOut::new("first".to_string(), String::new());
    let b = PoorOut::new("second".to_string(), "warn".to_string());
    let m = a.merge(b);
    assert_eq!(m.out, "first \nsecond");
    assert_eq!(m.warning, "warn");

    let e = PoorOut::empty().merge(PoorOut::empty());
    assert!(e.out.is_empty() && e.warning.is_empty());

    let m = PoorOut::new("solo".to_string(), String::new()).merge(PoorOut::empty());
    assert_eq!(m.out, "solo");

    let m = PoorOut::new("solo".to_string(), String::new()).merge_out("more");
    assert_eq!(m.out, "solo \nmore");

    let (res, tail) = pass_poor((PoorOut::new("o".to_string(), "w".to_string()), 7usize));
    assert_eq!(res.out, "o");
    assert_eq!(res.warning, "w");
    assert_eq!(tail, 7);
}

#[test]
fn decimal_rendering() {
    assert_eq!(usize_to_string(0), "0");
    assert_eq!(usize_to_string(1500), "1500");
    assert_eq!(isize_to_string(-15), "-15");
    assert_eq!(isize_to_string(0), "0");
    assert_eq!(isize_to_string(isize::MIN), isize::MIN.to_string());
    assert_eq!(isize_to_string(isize::MAX), isize::MAX.to_string());
}
