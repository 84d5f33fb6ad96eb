use abot::horse::care::{
    add_invested, apply_use, add_random_trait, clear_breed_cd, missing_trait, heal, parse_use_args, reduce_breed_count, restore_satiety,
    restore_vitality, set_injury, use_check, use_investment, UseArgs, UseOutcome,
};
use abot::horse::consts::{self, Difficulty, Item, Stat, Trait};
use abot::horse::logic::{
    ancestors_within, breed_base_rarity, child_generation, shifted_rarity, apply_reach_tonic, apply_restore, breed_cost, drop_item, drop_of, shares_ancestor, feed_basic, finish_race, gacha_pull, lifespan_max_for, pick_index,
    project,
    weighted_pick, Horse, Pull, HOUR_MICROS, MINUTE_MICROS,
};
use abot::horse::play::{
    breed_gate, BreedArgs, foal_invested, gacha_cost, gacha_run, is_rare_pull, ownership, parse_breed_args, parse_id,
    parse_race_args, parse_rename, parse_train_args, pick_frames, pity_left, place_or_refund, race_gate, rank_mode,
    scar_remaining, sell_qty, shop_qty, train_cost, train_gate, BreedGate, Ownership, RaceGate, RankMode,
    RenameArgs, TrainAid, TrainArgs, TrainGate, roll_train_tier, train_tier_weights,
};
use abot::horse::race::{mark_rounds, other_index, strongest_other, Runner, RunnerInfo, RunnerTally};
use abot::horse::show::{
    adaptive, growth_tag, horse_idx, horse_power_label, owner_label, owner_name, palette, race_summary, sex_str,
    stars, stat_abbr,
};
use rand::rngs::StdRng;
use rand::SeedableRng;

fn base_horse() -> Horse {
    Horse {
        id: 7,
        owner_uin: 123456,
        name: "疾风".to_string(),
        color: 1,
        sex: 0,
        generation: 1,
        rarity: 2,
        traits: 0,
        spd: 10000,
        sta: 8000,
        brs: 6000,
        agi: 4000,
        luk: 2000,
        pot_spd: 100,
        pot_sta: 90,
        pot_brs: 80,
        pot_agi: 70,
        pot_luk: 60,
        growth: 100,
        vitality: 80,
        satiety: 50,
        state_at: 0,
        lifespan: 100,
        lifespan_cap: 150,
        lifespan_max: 150,
        injury: 0,
        injury_until: None,
        scar: 0,
        scar_until: None,
        breed_cd_until: None,
        breed_count: 0,
        status: 0,
        wins: 0,
        races: 3,
        train_day: 100,
        train_today: 2,
        race_day: 100,
        race_today: 1,
        bonus_day: 0,
        season_key: "2025-01".to_string(),
        season_wins: 1,
        invested: 0,
        train_total: 0,
        acq_seq: 0,
        elo: 1200,
        elo_games: 0,
        desk_lv: 0,
        prep_lv: 0,
        father_id: None,
        mother_id: None,
    }
}

fn info(name: &str) -> RunnerInfo {
    RunnerInfo { name: name.to_string(), owner: String::new(), color: 0, is_npc: true }
}

#[test]
fn train_mag_mean_matches_tiers() {
    let tiers: Vec<(u32, f32, f32)> =
        consts::TRAIN_TIERS_TENTHS.iter().map(|&(w, lo, hi)| (w, lo as f32 / 10.0, hi as f32 / 10.0)).collect();
    let train_mag_mean = consts::TRAIN_MAG_MEAN_TENTHS as f32 / 10.0;
    let total: u32 = tiers.iter().map(|t| t.0).sum();
    let mean: f32 = tiers.iter().map(|&(w, lo, hi)| w as f32 * (lo + hi) / 2.0).sum::<f32>() / total as f32;
    assert!((mean - train_mag_mean).abs() < 0.01, "TRAIN_MAG_MEAN={train_mag_mean} 应 ≈ 档位加权均值 {mean}");
}

#[test]
fn mark_rounds_reduced_by_agility() {
    let mk = |agi: i32, traits: i32| Runner { info: info("x"), stats: [80, 80, 80, agi, 80], traits };
    assert_eq!(mark_rounds(&mk(0, 0)), consts::MARK_ROUNDS, "低敏不减时");
    assert!(mark_rounds(&mk(240, 0)) < mark_rounds(&mk(0, 0)), "高敏应减时");
    let reflex = consts::Trait::Reflex.bit();
    assert!(mark_rounds(&mk(150, reflex)) < mark_rounds(&mk(150, 0)), "反射神经更易减时");
    assert!(mark_rounds(&mk(9999, 0)) >= 1, "减时下限为 1");
}

#[test]
fn weighted_pick_skips_zero_weights() {
    let mut rng = StdRng::seed_from_u64(42);
    let w = [0u32, 5, 0, 3];
    for _ in 0..300 {
        let i = weighted_pick(&w, &mut rng);
        assert!(i == 1 || i == 3, "zero-weight slot {i} drawn");
    }
    assert_eq!(weighted_pick(&[0u32, 0, 0], &mut rng), 0);
}

#[test]
fn pick_index_by_roll() {
    let w = [3u32, 0, 2];
    let got: Vec<usize> = (0..5).map(|r| pick_index(&w, r)).collect();
    assert_eq!(got, vec![0, 0, 0, 2, 2]);
}

#[test]
fn gacha_pity_forces_high_star() {
    let mut rng = StdRng::seed_from_u64(7);
    let mut pity = consts::GACHA_PITY - 1;
    match gacha_pull(&mut pity, false, &consts::GACHA_CLASS_WEIGHTS, &consts::GACHA_HORSE_RARITY_WEIGHTS, &mut rng) {
        Pull::Horse(r) => assert!(r >= 3),
        Pull::Item(_) => panic!("the pity draw must be a horse"),
    }
    assert_eq!(pity, 0);
    let mut horse_pity = consts::GACHA_HORSE_POOL_PITY - 1;
    let p = gacha_pull(
        &mut horse_pity,
        true,
        &consts::GACHA_HORSE_POOL_CLASS_WEIGHTS,
        &consts::GACHA_HORSE_POOL_RARITY_WEIGHTS,
        &mut rng,
    );
    assert!(matches!(p, Pull::Horse(r) if r >= 3));
    assert_eq!(horse_pity, 0);
}

#[test]
fn gacha_items_come_from_weighted_groups() {
    let mut rng = StdRng::seed_from_u64(9);
    let only_treasure = [0u32, 0, 0, 100, 0];
    let only_horses = [0u32, 0, 0, 0, 100];
    for _ in 0..200 {
        let mut pity = 0;
        match gacha_pull(&mut pity, false, &only_treasure, &consts::GACHA_HORSE_RARITY_WEIGHTS, &mut rng) {
            Pull::Item(it) => assert!(Item::TREASURE.contains(&it)),
            Pull::Horse(_) => {}
        }
        let mut pity = 0;
        let p = gacha_pull(&mut pity, false, &only_horses, &[0, 5, 0, 0], &mut rng);
        assert_eq!(p, Pull::Horse(2));
        assert_eq!(pity, 1);
    }
}

#[test]
fn gacha_session_reaching_pity_holds_high_star() {
    for seed in 0..20u64 {
        let mut rng = StdRng::seed_from_u64(seed);
        let horse_run = gacha_run(0, 25, true, &mut rng);
        assert!(horse_run.pulls.iter().any(|p| matches!(p, Pull::Horse(r) if *r >= 3)));
        assert!(horse_run.pity < consts::GACHA_HORSE_POOL_PITY);
        let run = gacha_run(5, 25, false, &mut rng);
        assert_eq!(run.pulls.len(), 25);
        assert!(run.pulls.iter().any(|p| matches!(p, Pull::Horse(r) if *r >= 3)));
        assert!(run.pity >= 0 && run.pity < consts::GACHA_PITY);
        let no_horse = run.pulls.iter().all(|p| matches!(p, Pull::Item(_)));
        assert_eq!(run.extra.is_some(), no_horse);
    }
    let mut rng = StdRng::seed_from_u64(1);
    let single = gacha_run(0, 1, true, &mut rng);
    assert!(single.extra.is_none());
}

#[test]
fn gacha_prices_and_refunds() {
    assert_eq!(gacha_cost(1, false), 170);
    assert_eq!(gacha_cost(10, false), 1580);
    assert_eq!(gacha_cost(1, true), 350);
    assert_eq!(gacha_cost(10, true), 3200);
    assert_eq!(place_or_refund(3, 2), None);
    assert_eq!(place_or_refund(consts::STABLE_CAP, 2), Some(220));
    assert_eq!(place_or_refund(consts::STABLE_CAP, 9), Some(900));
    assert!(is_rare_pull(Item::StarStone));
    assert!(is_rare_pull(Item::Care3));
    assert!(!is_rare_pull(Item::Care1));
    assert_eq!(pity_left(12, false), 18);
    assert_eq!(pity_left(40, false), 0);
    assert_eq!(pity_left(12, true), 13);
}

#[test]
fn project_turns_injury_into_scar_and_settles_blocks() {
    let mut h = base_horse();
    h.injury = 1;
    h.injury_until = Some(10);
    let now = 90 * MINUTE_MICROS;
    let p = project(&h, now, 100, 100);
    assert_eq!(p.injury, 0);
    assert_eq!(p.scar, 1);
    assert_eq!(p.scar_until, Some(now + 12 * HOUR_MICROS));
    assert_eq!(p.vitality, 95);
    assert_eq!(p.satiety, 44);
    assert_eq!(p.state_at, 90 * MINUTE_MICROS);
    let again = project(&p, now, 100, 100);
    assert_eq!(again.vitality, p.vitality);
    assert_eq!(again.satiety, p.satiety);
    assert_eq!(again.state_at, p.state_at);
    let next_day = project(&h, now, 100, 101);
    assert_eq!(next_day.vitality, consts::VIT_MAX);
    assert_eq!(next_day.state_at, now);
}

#[test]
fn finish_race_records() {
    let mut h = base_horse();
    finish_race(&mut h, true, 100, "2025-01".to_string());
    assert_eq!(h.vitality, 65);
    assert_eq!(h.lifespan, 94);
    assert_eq!((h.races, h.wins, h.race_today, h.season_wins), (4, 1, 2, 2));
    finish_race(&mut h, false, 101, "2025-02".to_string());
    assert_eq!((h.race_day, h.race_today, h.season_wins), (101, 1, 0));
    assert_eq!(h.season_key, "2025-02");
}

#[test]
fn feed_restore_and_tonic() {
    let mut h = base_horse();
    feed_basic(&mut h);
    assert_eq!(h.satiety, 85);
    feed_basic(&mut h);
    assert_eq!(h.satiety, 100);
    apply_restore(&mut h, 100, 20);
    assert_eq!((h.lifespan, h.lifespan_cap), (130, 130));
    h.pot_spd = 215;
    assert_eq!(apply_reach_tonic(&mut h, Stat::Spd), consts::REACH_HARD_MAX);
    assert_eq!(apply_reach_tonic(&mut h, Stat::Luk), 72);
}

#[test]
fn care_edits() {
    let mut h = base_horse();
    restore_vitality(&mut h, 50);
    assert_eq!(h.vitality, 100);
    restore_satiety(&mut h, 10);
    assert_eq!(h.satiety, 60);
    reduce_breed_count(&mut h);
    assert_eq!(h.breed_count, 0);
    h.breed_count = 3;
    reduce_breed_count(&mut h);
    assert_eq!(h.breed_count, 2);
    h.breed_cd_until = Some(5);
    clear_breed_cd(&mut h);
    assert_eq!(h.breed_cd_until, None);
    add_invested(&mut h, 30);
    assert_eq!(h.invested, 30);
    set_injury(&mut h, 2, 1000);
    assert_eq!((h.injury, h.injury_until), (2, Some(1000 + 8 * HOUR_MICROS)));
    heal(&mut h, 2000);
    assert_eq!((h.injury, h.injury_until, h.scar), (0, None, 2));
    assert_eq!(h.scar_until, Some(2000 + 24 * HOUR_MICROS));
}

#[test]
fn trait_book_learns_a_new_trait() {
    let mut rng = StdRng::seed_from_u64(3);
    let mut h = base_horse();
    let t = add_random_trait(&mut h, &mut rng).expect("room for a trait");
    assert_eq!(h.traits, t.bit());
    let mut full = base_horse();
    full.traits = Trait::Genius.bit() | Trait::Gale.bit();
    assert!(add_random_trait(&mut full, &mut rng).is_none());
    assert_eq!(full.traits, Trait::Genius.bit() | Trait::Gale.bit());
}

#[test]
fn use_item_outcomes() {
    let h = base_horse();
    let words = |s: &str| -> Vec<Vec<char>> { s.split_whitespace().map(|w| w.chars().collect()).collect() };
    assert_eq!(use_check(Item::ReachTonic, &h, &words(""), 0).0, UseOutcome::NeedStat);
    assert_eq!(use_check(Item::ReachTonic, &h, &words("速度"), 0).0, UseOutcome::Tonic(Stat::Spd));
    assert_eq!(use_check(Item::Dye, &h, &words("栗色"), 0).0, UseOutcome::SameColor);
    assert_eq!(use_check(Item::Dye, &h, &words("白龙"), 0).0, UseOutcome::Dye(3));
    assert_eq!(use_check(Item::Dye, &h, &words("彩虹"), 0).0, UseOutcome::NeedColor);
    assert_eq!(use_check(Item::Medicine, &h, &words(""), 0).0, UseOutcome::NotInjured);
    assert_eq!(use_check(Item::EnergyDrink, &h, &words(""), 0).0, UseOutcome::Energy);
    assert_eq!(use_check(Item::RedString, &h, &words(""), 0).0, UseOutcome::NotMare);
    assert_eq!(use_check(Item::BreedCharm, &h, &words(""), 0).0, UseOutcome::NeverBred);
    assert_eq!(use_check(Item::StarStone, &h, &words(""), 0).0, UseOutcome::AtBreeding);
    assert_eq!(use_check(Item::Boost, &h, &words(""), 0).0, UseOutcome::NotHere);
    let (v, name) = use_check(Item::NameTag, &h, &words("踏 雪"), 0);
    assert_eq!(v, UseOutcome::Rename);
    assert_eq!(name, "踏 雪");
    assert_eq!(use_check(Item::NameTag, &h, &words("一二三四五六七八九十一二三"), 0).0, UseOutcome::BadName);
    let mut mare = base_horse();
    mare.sex = 1;
    mare.breed_cd_until = Some(500);
    assert_eq!(use_check(Item::RedString, &mare, &words(""), 100).0, UseOutcome::RedString);
    assert_eq!(use_check(Item::RedString, &mare, &words(""), 600).0, UseOutcome::NoCooldown);
    let mut full = base_horse();
    full.traits = Trait::Genius.bit() | Trait::Gale.bit();
    assert_eq!(use_check(Item::TraitBook, &full, &words(""), 0).0, UseOutcome::TraitsFull);
}

#[test]
fn use_args_and_investment() {
    assert!(matches!(parse_use_args("x 育骨精料"), UseArgs::Usage));
    assert!(matches!(parse_use_args("3 冲刺"), UseArgs::NoItem));
    assert!(matches!(parse_use_args("3"), UseArgs::NoItem));
    match parse_use_args("3 育骨精料 速度") {
        UseArgs::Go(id, item, rest) => {
            assert_eq!((id, item), (3, Item::ReachTonic));
            assert_eq!(rest, vec!["速度".chars().collect::<Vec<char>>()]);
        }
        other => panic!("unexpected {other:?}"),
    }
    assert_eq!(use_investment(Item::StarStone), 1000);
    assert_eq!(use_investment(Item::Care1), 0);
}

#[test]
fn race_args_and_gate() {
    assert_eq!(parse_id(" 42 x"), Some(42));
    assert_eq!(parse_id("x"), None);
    let (id, d, items) = parse_race_args("12 困难 冲刺 四叶草 终盘冲刺 饲料").unwrap();
    assert_eq!((id, d), (12, Some(Difficulty::Hard)));
    assert_eq!(items, vec![Item::Boost, Item::Clover]);
    assert!(parse_race_args("困难").is_none());
    let mut h = base_horse();
    assert_eq!(race_gate(&h, None, 100, 0), RaceGate::Go(Difficulty::Normal, 35));
    assert_eq!(race_gate(&h, Some(Difficulty::Easy), 101, 0), RaceGate::Go(Difficulty::Easy, 5));
    h.races = 0;
    assert_eq!(race_gate(&h, None, 101, 0), RaceGate::Go(Difficulty::Easy, 5));
    h.vitality = 3;
    assert_eq!(race_gate(&h, None, 101, 0), RaceGate::Tired);
    h.injury = 2;
    h.injury_until = Some(125 * MINUTE_MICROS);
    assert_eq!(race_gate(&h, None, 101, 5 * MINUTE_MICROS), RaceGate::Injured(2, 120));
    h.status = 2;
    assert_eq!(race_gate(&h, None, 101, 0), RaceGate::Retired);
}

#[test]
fn live_frames() {
    let keys: Vec<usize> = (0..=10).collect();
    assert_eq!(pick_frames(&keys, 3), vec![0, 5, 10]);
    assert_eq!(pick_frames(&vec![4, 9], 3), vec![4, 9]);
    assert_eq!(pick_frames(&vec![1, 1, 1, 1, 2], 3), vec![1, 2]);
    assert_eq!(pick_frames(&vec![3, 6], 0), vec![3]);
}

#[test]
fn breeding_decisions() {
    assert_eq!(parse_breed_args("3 4 星辉石"), BreedArgs::Go(3, 4, true));
    assert_eq!(parse_breed_args("3 4"), BreedArgs::Go(3, 4, false));
    assert_eq!(parse_breed_args("3"), BreedArgs::Usage);
    assert_eq!(parse_breed_args("5 5"), BreedArgs::SameHorse);
    assert_eq!(parse_breed_args("5 +5 星辉石"), BreedArgs::SameHorse);
    let sire = base_horse();
    let mut dam = base_horse();
    dam.sex = 1;
    dam.rarity = 3;
    assert_eq!(breed_cost(&sire, &dam), 800);
    assert_eq!(breed_gate(&dam, &sire, 0, 3), BreedGate::Go(false, 800));
    assert_eq!(breed_gate(&sire, &dam, 0, 3), BreedGate::Go(true, 800));
    assert_eq!(breed_gate(&sire, &sire, 0, 3), BreedGate::NeedPair);
    assert_eq!(breed_gate(&sire, &dam, 0, consts::STABLE_CAP), BreedGate::StableFull);
    dam.breed_cd_until = Some(30 * MINUTE_MICROS);
    assert_eq!(breed_gate(&sire, &dam, 0, 3), BreedGate::Resting(30));
    dam.breed_cd_until = Some(10);
    assert_eq!(breed_gate(&sire, &dam, 0, 3), BreedGate::Resting(1));
    dam.breed_count = consts::BREED_COUNT_MAX;
    assert_eq!(breed_gate(&sire, &dam, 0, 3), BreedGate::Exhausted(false));
    dam.injury = 1;
    assert_eq!(breed_gate(&sire, &dam, 0, 3), BreedGate::Injured);
    assert_eq!(foal_invested(800, true), 1800);
    assert_eq!(foal_invested(800, false), 800);
}

#[test]
fn rename_arguments() {
    assert!(matches!(parse_rename("12"), RenameArgs::Usage));
    assert!(matches!(parse_rename("x 踏雪"), RenameArgs::BadId));
    assert!(matches!(parse_rename("12    "), RenameArgs::Usage));
    assert!(matches!(parse_rename("12 一二三四五六七八九十一二三"), RenameArgs::BadName));
    match parse_rename(" 12  踏 雪 ") {
        RenameArgs::Go(id, name) => assert_eq!((id, name.as_str()), (12, "踏 雪")),
        other => panic!("unexpected {other:?}"),
    }
}

#[test]
fn training_decisions() {
    assert_eq!(parse_train_args("3"), TrainArgs::Usage);
    assert_eq!(parse_train_args("3 跳舞"), TrainArgs::NoStat);
    assert_eq!(parse_train_args("3 速度 精饲料"), TrainArgs::Go(3, Stat::Spd, Some(Item::Feed1)));
    assert_eq!(parse_train_args("3 耐 冲刺"), TrainArgs::Go(3, Stat::Sta, None));
    let mut h = base_horse();
    assert_eq!(train_gate(&h), TrainGate::Go);
    assert_eq!(train_cost(&h, Stat::Spd, 100), 26 + 7 * 2 + 28);
    assert_eq!(train_cost(&h, Stat::Agi, 101), 26 + 11);
    h.vitality = 5;
    assert_eq!(train_gate(&h), TrainGate::Tired);
    h.status = 2;
    assert_eq!(train_gate(&h), TrainGate::Retired);
    let aid = TrainAid::of(Some(Item::DrillPass));
    assert!(aid.no_vit && !aid.focus_only && !aid.break_ceiling);
    assert_eq!(TrainAid::of(None).feed_bump, 0);
}

#[test]
fn small_command_decisions() {
    assert_eq!(ownership(Some(5), 5), Ownership::Mine);
    assert_eq!(ownership(Some(6), 5), Ownership::NotMine);
    assert_eq!(ownership(None, 5), Ownership::Missing);
    assert_eq!(shop_qty(None), 1);
    assert_eq!(shop_qty(Some("0")), 1);
    assert_eq!(shop_qty(Some("500")), consts::ITEM_STACK_CAP);
    assert_eq!(shop_qty(Some("x")), 1);
    assert_eq!(sell_qty(Some("500")), 500);
    assert_eq!(sell_qty(Some("-3")), 1);
    assert_eq!(rank_mode(" 赛季榜"), RankMode::Season);
    assert_eq!(rank_mode("胜率"), RankMode::WinRate);
    assert_eq!(rank_mode(""), RankMode::Wins);
    let mut h = base_horse();
    assert_eq!(scar_remaining(&h, 0), None);
    h.scar = 1;
    h.scar_until = Some(61 * MINUTE_MICROS);
    assert_eq!(scar_remaining(&h, MINUTE_MICROS), Some(60));
}

#[test]
fn strongest_and_other() {
    let rs = vec![
        Runner { info: info("a"), stats: [10, 10, 10, 10, 10], traits: 0 },
        Runner { info: info("b"), stats: [50, 10, 10, 10, 10], traits: 0 },
        Runner { info: info("c"), stats: [50, 10, 10, 10, 10], traits: 0 },
    ];
    assert_eq!(strongest_other(1, &rs), 2);
    assert_eq!(strongest_other(0, &rs), 2);
    assert_eq!(other_index(1, 1), 2);
    assert_eq!(other_index(1, 0), 0);
}

#[test]
fn horse_display() {
    assert_eq!(stars(2), "★★☆☆");
    assert_eq!(stars(9), "★★★★");
    assert_eq!(stars(-1), "☆☆☆☆");
    assert_eq!(sex_str(0), "公");
    assert_eq!(sex_str(1), "母");
    assert_eq!(stat_abbr(Stat::Luk), "运");
    assert_eq!(growth_tag(120), "快");
    assert_eq!(growth_tag(85), "慢");
    assert_eq!(growth_tag(100), "中");
    assert_eq!(horse_power_label(&base_horse()), "★2 速100 耐80 爆60 敏40 运20");
    assert_eq!(race_summary(&RunnerTally { crits: 0, frozen: 0, dodged: 0 }), "全程稳健发挥");
    assert_eq!(race_summary(&RunnerTally { crits: 2, frozen: 0, dodged: 1 }), "触发暴击 2 次 · 闪避 1 次");
    assert_eq!(owner_name("", &Some("A60".to_string()), 42), "A60");
    assert_eq!(owner_name("阿六", &Some("A60".to_string()), 42), "阿六");
    assert_eq!(owner_name("", &None, 42), "玩家#42");
    assert_eq!(owner_label(Some(("", &Some("A60".to_string()), 42)), 1), "A60 #42");
    assert_eq!(owner_label(None, 123456), "玩家#123456");
}

#[test]
fn replay_pacing() {
    assert_eq!(adaptive(50), (1, 150));
    assert_eq!(adaptive(53), (1, 150));
    assert_eq!(adaptive(1000), (12, 90));
    assert_eq!(adaptive(54), (1, 140));
    assert_eq!(horse_idx(-1), 3);
    assert_eq!(horse_idx(9), 8);
    assert_eq!(palette().len(), 27);
}

#[test]
fn lifespan_cap_clamps_and_grows() {
    assert_eq!(lifespan_max_for(0), consts::LIFESPAN_MIN);
    assert_eq!(lifespan_max_for(9999), consts::LIFESPAN_CAP_MAX);
    assert!(lifespan_max_for(150) > lifespan_max_for(60));
    assert_eq!(lifespan_max_for(100), 800);
}

#[test]
fn drops_come_from_the_three_pools() {
    let mut rng = StdRng::seed_from_u64(2024);
    let mut seen_mid = false;
    for _ in 0..2000 {
        let it = drop_item(&mut rng);
        let common = consts::DROP_COMMON.contains(&it);
        let mid = consts::DROP_MID.contains(&it);
        let treasure = Item::TREASURE.contains(&it);
        assert!(common || mid || treasure, "{:?}", it);
        seen_mid |= mid;
    }
    assert!(seen_mid);
}

#[test]
fn drop_of_reads_the_chosen_pool() {
    assert_eq!(drop_of(0, 0), Item::Care1);
    assert_eq!(drop_of(0, 3), Item::EnergyDrink);
    assert_eq!(drop_of(1, 5), Item::Care2);
    assert_eq!(drop_of(1, 0), Item::Boost);
    assert_eq!(drop_of(2, 0), Item::ReachTonic);
    assert_eq!(drop_of(2, 8), Item::NameTag);
}

#[test]
fn training_tier_weights_follow_luck_feed_and_hunger() {
    assert_eq!(train_tier_weights(0, 0, false, false), [40, 38, 18, 4]);
    assert_eq!(train_tier_weights(85, 1, false, true), [28, 38, 26, 8]);
    assert_eq!(train_tier_weights(500, 0, false, false), [28, 38, 26, 8]);
    assert_eq!(train_tier_weights(50, 20, false, false), [0, 38, 60, 25]);
    assert_eq!(train_tier_weights(0, 0, true, false), [55, 38, 9, 2]);
    let mut rng = StdRng::seed_from_u64(5);
    for _ in 0..500 {
        let t = roll_train_tier(0, 20, false, false, &mut rng);
        assert!(t >= 1 && t < 4);
    }
}

#[test]
fn settling_in_two_steps_keeps_the_remainder() {
    let mut h = base_horse();
    h.vitality = 50;
    h.satiety = 80;
    let t1 = 45 * MINUTE_MICROS;
    let t2 = 100 * MINUTE_MICROS;
    let once = project(&h, t2, 100, 100);
    let first = project(&h, t1, 100, 100);
    assert_eq!(first.state_at, 30 * MINUTE_MICROS);
    assert_eq!(first.vitality, 55);
    let twice = project(&first, t2, 100, 100);
    assert_eq!(once.vitality, 65);
    assert_eq!(once.satiety, 74);
    assert_eq!(once.state_at, 90 * MINUTE_MICROS);
    assert_eq!(twice.vitality, once.vitality);
    assert_eq!(twice.satiety, once.satiety);
    assert_eq!(twice.state_at, once.state_at);
}

#[test]
fn missing_trait_draws_only_absent_traits() {
    let mut rng = StdRng::seed_from_u64(11);
    assert_eq!(missing_trait(0x3ff, &mut rng), None);
    let all_but_gale = 0x3ff & !Trait::Gale.bit();
    for _ in 0..20 {
        assert_eq!(missing_trait(all_but_gale, &mut rng), Some(Trait::Gale));
    }
    for _ in 0..50 {
        let t = missing_trait(Trait::Reflex.bit(), &mut rng).unwrap();
        assert_ne!(t, Trait::Reflex);
    }
}

#[test]
fn ancestors_and_close_kin() {
    let rows = vec![
        (5, Some(3), Some(4)),
        (3, Some(1), Some(2)),
        (4, Some(2), None),
        (6, Some(7), Some(8)),
        (9, Some(2), None),
    ];
    let mut a1 = ancestors_within(&rows, 5, 1);
    a1.sort();
    assert_eq!(a1, vec![3, 4, 5]);
    let mut a2 = ancestors_within(&rows, 5, 2);
    a2.sort();
    assert_eq!(a2, vec![1, 2, 3, 4, 5]);
    assert_eq!(ancestors_within(&rows, 5, 0), vec![5]);
    assert_eq!(ancestors_within(&rows, 42, 3), vec![42]);
    assert!(!shares_ancestor(&rows, 5, 6, 3));
    assert!(shares_ancestor(&rows, 5, 9, 2));
    assert!(!shares_ancestor(&rows, 5, 9, 1));
    assert!(shares_ancestor(&rows, 3, 5, 1));
    assert!(shares_ancestor(&rows, 6, 6, 0));
}

#[test]
fn foal_generation_and_rarity() {
    assert_eq!(child_generation(1, 3), 4);
    assert_eq!(child_generation(2, 2), 3);
    assert_eq!(breed_base_rarity(3, 4), 3);
    assert_eq!(breed_base_rarity(4, 4), 4);
    assert_eq!(breed_base_rarity(1, 2), 1);
    assert_eq!(shifted_rarity(4, 1), 4);
    assert_eq!(shifted_rarity(3, 1), 4);
    assert_eq!(shifted_rarity(1, -1), 1);
    assert_eq!(shifted_rarity(2, 0), 2);
}

#[test]
fn using_an_item_takes_it_only_on_an_effect() {
    let words = |s: &str| -> Vec<Vec<char>> { s.split_whitespace().map(|w| w.chars().collect()).collect() };
    let mut rng = StdRng::seed_from_u64(7);
    let mut h = base_horse();
    let (o, left) = apply_use(Item::Dye, &mut h, &words("栗色"), 0, 2, 0, &mut rng);
    assert_eq!((o, left, h.color, h.invested), (UseOutcome::SameColor, 2, 1, 0));
    let (o, left) = apply_use(Item::Dye, &mut h, &words("白龙"), 0, 0, 0, &mut rng);
    assert_eq!((o, left, h.color, h.invested), (UseOutcome::Dye(3), 0, 1, 0));
    let (o, left) = apply_use(Item::Dye, &mut h, &words("白龙"), 0, 2, 0, &mut rng);
    assert_eq!((o, left, h.color), (UseOutcome::Dye(3), 1, 3));
    assert_eq!(h.invested, use_investment(Item::Dye));
    assert!(h.invested > 0);

    let mut e = base_horse();
    let (o, left) = apply_use(Item::EnergyDrink, &mut e, &words(""), 0, 1, 0, &mut rng);
    assert_eq!((o, left, e.vitality, e.invested), (UseOutcome::Energy, 0, 100, 0));

    let mut g = base_horse();
    let (o, left) = apply_use(Item::GrowthHerb, &mut g, &words(""), 0, 5, 123, &mut rng);
    assert_eq!((o, left, g.growth), (UseOutcome::Growth, 4, 123));

    let mut n = base_horse();
    let (o, _) = apply_use(Item::NameTag, &mut n, &words(" 踏  雪 "), 0, 1, 0, &mut rng);
    assert_eq!((o, n.name.as_str()), (UseOutcome::Rename, "踏 雪"));

    let mut m = base_horse();
    let (o, left) = apply_use(Item::Medicine, &mut m, &words(""), 0, 3, 0, &mut rng);
    assert_eq!((o, left, m.scar, m.scar_until), (UseOutcome::NotInjured, 3, 0, None));
}
