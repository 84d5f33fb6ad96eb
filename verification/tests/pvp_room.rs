use abot::horse::consts::{self, Item};
use abot::horse::logic::Horse;
use abot::horse::pvp::{
    entry_check, field_recheck, parse_stake_items, place_shares, side_shares, EntryCheck, Lobby, LobbyCall,
};

fn horse(status: i16, injury: i16, vitality: i32) -> Horse {
    Horse {
        id: 1,
        owner_uin: 10001,
        name: "x".to_string(),
        color: 0,
        sex: 0,
        generation: 1,
        rarity: 1,
        traits: 0,
        spd: 0,
        sta: 0,
        brs: 0,
        agi: 0,
        luk: 0,
        pot_spd: 0,
        pot_sta: 0,
        pot_brs: 0,
        pot_agi: 0,
        pot_luk: 0,
        growth: 100,
        vitality,
        satiety: 50,
        state_at: 0,
        lifespan: 100,
        lifespan_cap: 100,
        lifespan_max: 100,
        injury,
        injury_until: None,
        scar: 0,
        scar_until: None,
        breed_cd_until: None,
        breed_count: 0,
        status,
        wins: 0,
        races: 0,
        train_day: 0,
        train_today: 0,
        race_day: 0,
        race_today: 0,
        bonus_day: 0,
        season_key: String::new(),
        season_wins: 0,
        invested: 0,
        train_total: 0,
        acq_seq: 0,
        elo: 1200,
        elo_games: 0,
        desk_lv: 0,
        prep_lv: 0,
        father_id: None,
        mother_id: None,
    }
}

#[test]
fn stake_and_items_in_any_order() {
    assert_eq!(parse_stake_items("冲刺 5000 四叶草 终盘冲刺"), (Some(consts::PVP_STAKE_MAX), vec![Item::Boost, Item::Clover]));
    assert_eq!(parse_stake_items("3"), (Some(consts::PVP_STAKE_MIN), vec![]));
    assert_eq!(parse_stake_items("100 200"), (Some(200), vec![]));
    assert_eq!(parse_stake_items("精饲料"), (None, vec![]));
}

#[test]
fn entry_checks_in_order() {
    assert_eq!(entry_check(&horse(2, 1, 0)), EntryCheck::Retired);
    assert_eq!(entry_check(&horse(0, 1, 0)), EntryCheck::Injured);
    assert_eq!(entry_check(&horse(0, 0, 10)), EntryCheck::Tired);
    assert_eq!(entry_check(&horse(0, 0, 80)), EntryCheck::Fit);
    let field = vec![horse(0, 0, 80), horse(0, 0, 3), horse(2, 0, 80)];
    assert_eq!(field_recheck(&field), Some((1, EntryCheck::Tired)));
    assert_eq!(field_recheck(&vec![horse(0, 0, 80)]), None);
}

#[test]
fn lobby_reads_messages() {
    let mut l = Lobby::open(10001, 1, 50);
    assert_eq!(l.step(20002, "赛马开跑").0, LobbyCall::Ignore);
    assert_eq!(l.step(10001, "赛马开跑").0, LobbyCall::NeedTwo);
    assert_eq!(l.step(10001, "赛马报名 3").0, LobbyCall::AlreadyIn);
    assert_eq!(l.step(20002, "赛马报名").0, LobbyCall::JoinUsage);
    let (call, items) = l.step(20002, "  赛马报名 2 冲刺 终盘冲刺 四叶草 ");
    assert_eq!(call, LobbyCall::Join(2));
    assert_eq!(items, vec![Item::Boost, Item::LateBoost]);
    assert!(!l.seat(20002, 2));
    assert_eq!(l.step(10001, "赛马开跑").0, LobbyCall::Start);
    assert_eq!(l.step(20002, "赛马押 1 100").0, LobbyCall::BetIsRunner);
    assert_eq!(l.step(30003, "赛马押 9 100").0, LobbyCall::NoSuchHorse);
    assert_eq!(l.step(30003, "赛马押 1").0, LobbyCall::BetUsage);
    assert_eq!(l.step(30003, "赛马押 1 99999").0, LobbyCall::Bet(1, consts::PVP_STAKE_MAX));
    l.place_bet(30003, 1, 300);
    assert_eq!(l.step(30003, "赛马押 2 100").0, LobbyCall::BetTwice);
    assert_eq!(l.step(30003, "赛马报名 5").0, LobbyCall::AlreadyBet);
    assert_eq!(l.step(10001, "赛马散场").0, LobbyCall::Cancel);
    assert_eq!(l.pool(), 100);
    assert_eq!(l.refunds(), vec![(10001, 50), (20002, 50), (30003, 300)]);
    assert_eq!(l.refunds().iter().map(|r| r.1).sum::<i64>(), l.pool() + 300);
    assert_eq!(
        l.returned_items(&vec![vec![], vec![Item::Boost, Item::LateBoost]]),
        vec![(20002, Item::Boost), (20002, Item::LateBoost)]
    );
}

#[test]
fn full_room_starts() {
    let mut l = Lobby::open(1, 100, 20);
    let mut full = false;
    for i in 2..=consts::PVP_ROOM_CAP as i64 {
        full = l.seat(i * 10000, 100 + i);
    }
    assert!(full);
    assert_eq!(l.entrants.len(), consts::PVP_ROOM_CAP);
    assert_eq!(l.pool(), 20 * consts::PVP_ROOM_CAP as i64);
}

#[test]
fn prizes_add_up_to_the_payout() {
    // pool 300, rake 15: payout 285 = 171 + 71 + 43, one coin of rounding to the winner
    let shares = place_shares(285, &[171, 71, 43], 4);
    assert_eq!(shares, vec![171, 71, 43, 0]);
    assert_eq!(shares.iter().sum::<i64>(), 285);
    let shares = place_shares(95, &[57, 24, 14], 2);
    assert_eq!(shares, vec![71, 24]);
    assert_eq!(shares.iter().sum::<i64>(), 95);
    assert_eq!(place_shares(0, &[0, 0, 0], 3), vec![0, 0, 0]);
}

#[test]
fn side_bets_split_by_stake() {
    let bets = vec![(1, 7, 100), (2, 8, 300), (3, 7, 200)];
    // side pool 600, rake 30 → 570 for the backers of horse 7 (stakes 100 and 200)
    let out = side_shares(&bets, 7, 570).unwrap();
    assert_eq!(out, vec![(1, 190), (3, 380)]);
    assert_eq!(out.iter().map(|x| x.1).sum::<i64>(), 570);
    let uneven = vec![(1, 7, 100), (2, 7, 100), (3, 7, 100)];
    let out = side_shares(&uneven, 7, 100).unwrap();
    assert_eq!(out, vec![(1, 33), (2, 33), (3, 34)]);
    assert!(side_shares(&bets, 9, 570).is_none());
}
