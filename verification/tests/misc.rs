use abot::admin::{coin_check, coin_reason, sub_outcome, CoinCheck, CoinOp, SubOutcome};
use abot::chatlog::{archive_name, board_place, ext_from_ct, format_value, image_job, md5_hex, normalize_name, profile_line};
use abot::horse::consts::{color_index, color_name, Achievement, Difficulty, Facility, Item, ItemKind, Stat, Trait};
use abot::mcping::{add_check, del_target, edition_of, parse_add, AddCheck, Edition, ServerEntry, MAX_SERVERS};
use abot::mydata::{online_notice, text_summary, LevelInfo, MyDataCard};
use abot::nickname::{
    color_label, color_names, color_step, parse_color, rename_step, ColorInput, ColorStep, RenameStep, NAMED_COLORS,
};
use abot::text::{decimal_string, lower_chars};
use abot::words::{is_cancel, is_yes};

fn is_hex_color(s: &str) -> bool {
    s.len() == 7 && s.starts_with('#') && s[1..].chars().all(|c| c.is_ascii_hexdigit())
}

#[test]
fn color_parsing() {
    assert!(matches!(parse_color("红"), ColorInput::Pick(h) if h == "#e23b3b"));
    assert!(matches!(parse_color("红色"), ColorInput::Pick(h) if h == "#e23b3b"));
    assert!(matches!(parse_color("  蓝  "), ColorInput::Pick(h) if h == "#3b7be0"));
    assert!(matches!(parse_color("清除"), ColorInput::Clear));
    assert!(matches!(parse_color("去色"), ColorInput::Clear));
    assert!(matches!(parse_color("#ff8800"), ColorInput::Unknown));
    assert!(matches!(parse_color("灰"), ColorInput::Unknown));
    assert!(matches!(parse_color("彩虹"), ColorInput::Unknown));
}

#[test]
fn preset_palette() {
    assert_eq!(NAMED_COLORS.len(), 8);
    for (_, hex) in NAMED_COLORS {
        assert!(is_hex_color(hex), "{hex} 应是合法预设色");
    }
    assert_eq!(color_label("#e23b3b"), "红");
    assert_eq!(color_label("#E23B3B"), "红");
}

#[test]
fn nickname_commands() {
    assert_eq!(color_names(), "红 / 橙 / 黄 / 绿 / 青 / 蓝 / 紫 / 粉");
    assert_eq!(color_label("#123456"), "#123456");
    let raw = |s: &str| -> Vec<char> { s.chars().collect() };
    assert_eq!(rename_step(&raw(""), "阿六"), RenameStep::Show);
    assert_eq!(rename_step(&raw("清除"), ""), RenameStep::AlreadyNone);
    assert_eq!(rename_step(&raw("取消"), "阿六"), RenameStep::Clear);
    assert_eq!(rename_step(&raw("一二三四五六七八九十一二三四五六七"), "阿六"), RenameStep::TooLong);
    assert_eq!(rename_step(&raw("阿六"), "阿六"), RenameStep::Same);
    assert_eq!(rename_step(&raw("小七"), "阿六"), RenameStep::Charge);
    assert!(matches!(color_step("", "阿六", ""), ColorStep::Palette));
    assert!(matches!(color_step("清除", "阿六", ""), ColorStep::NothingToClear));
    assert!(matches!(color_step("清除", "阿六", "#e23b3b"), ColorStep::Clear));
    assert!(matches!(color_step("灰", "阿六", ""), ColorStep::Unknown));
    assert!(matches!(color_step("红", "", ""), ColorStep::NeedAlias));
    assert!(matches!(color_step("红", "阿六", "#E23B3B"), ColorStep::Same));
    assert!(matches!(color_step("蓝色", "阿六", "#e23b3b"), ColorStep::Charge(h) if h == "#3b7be0"));
}

#[test]
fn yes_and_cancel_words() {
    assert!(is_cancel(" NO "));
    assert!(is_cancel("算了"));
    assert!(!is_cancel("y"));
    assert!(is_yes(" OK"));
    assert!(is_yes("好的"));
    assert!(!is_yes("no"));
    for w in ["y", "n", "ok", "取消", "好", "quit", "确认"] {
        assert!(!(is_yes(w) && is_cancel(w)));
    }
    let upper: Vec<char> = "ÄB".chars().collect();
    assert_eq!(lower_chars(&upper), "äb".chars().collect::<Vec<char>>());
    assert_eq!(decimal_string(-120), "-120");
}

#[test]
fn game_constants() {
    assert_eq!(Stat::parse(" 速 "), Some(Stat::Spd));
    assert_eq!(Stat::Brs.name(), "爆发");
    assert_eq!(Difficulty::try_parse("大师"), Some(Difficulty::Master));
    assert_eq!(Difficulty::Hard.entry_fee(), 45);
    assert_eq!(Item::parse("四叶草"), Some(Item::Clover));
    assert_eq!(Item::Clover.kind(), ItemKind::Race);
    assert_eq!(Item::from_global(Item::Dye.global_id()), Some(Item::Dye));
    assert_eq!(Item::StarStone.sell_price(), 1000);
    assert_eq!(Trait::from_mask(Trait::Genius.bit() | Trait::Gale.bit()), vec![Trait::Genius, Trait::Gale]);
    assert!(Trait::Reflex.in_mask(Trait::Reflex.bit()));
    assert_eq!(color_index("乌骓"), Some(2));
    assert_eq!(color_name(2), "乌骓");
    assert_eq!(color_name(3), "白龙");
    assert_eq!(color_name(0), "枣红");
    assert_eq!(color_name(-1), "枣红");
    assert_eq!(color_name(6), "枣红");
    assert_eq!(color_name(5), "金棕");
    assert!(Achievement::FirstWin.reward() > 0);
    assert!(Facility::parse("训练场").is_some());
}

#[test]
fn server_list() {
    assert_eq!(edition_of(true, true), Edition::Conflict);
    assert_eq!(edition_of(true, false), Edition::Java);
    assert_eq!(edition_of(false, true), Edition::Bedrock);
    assert_eq!(edition_of(false, false), Edition::Auto);
    assert_eq!(parse_add("  mc.hypixel.net  Hypixel 主服 "), Some(("mc.hypixel.net".to_string(), "Hypixel 主服".to_string())));
    assert_eq!(parse_add("1.2.3.4"), Some(("1.2.3.4".to_string(), "Minecraft Server".to_string())));
    assert_eq!(parse_add("   "), None);
    let list = vec![
        ServerEntry { name: "Hypixel".to_string(), address: "mc.hypixel.net".to_string() },
        ServerEntry { name: "Home".to_string(), address: "1.2.3.4".to_string() },
    ];
    assert_eq!(add_check(&list, "MC.Hypixel.NET"), AddCheck::Duplicate);
    assert_eq!(add_check(&list, "5.6.7.8"), AddCheck::Go(3));
    let full: Vec<ServerEntry> = (0..MAX_SERVERS)
        .map(|i| ServerEntry { name: format!("s{i}"), address: format!("10.0.0.{i}") })
        .collect();
    assert_eq!(add_check(&full, "5.6.7.8"), AddCheck::Full);
    assert_eq!(del_target(&list, "2"), Some(1));
    assert_eq!(del_target(&list, "3"), None);
    assert_eq!(del_target(&list, "0"), None);
    assert_eq!(del_target(&list, "home"), Some(1));
    assert_eq!(del_target(&list, "MC.HYPIXEL.NET"), Some(0));
    assert_eq!(del_target(&list, "nope"), None);
}

#[test]
fn picture_archive_names() {
    assert_eq!(md5_hex(b"abc"), "900150983cd24fb0d6963f7d28e17f72");
    assert_eq!(archive_name(b"abc", Some("image/png")), "900150983cd24fb0d6963f7d28e17f72.png");
    assert_eq!(ext_from_ct(Some("image/jpeg")), "jpg");
    assert_eq!(ext_from_ct(None), "bin");
    assert_eq!(normalize_name("{3844E673-6F30-DEB5-DA1D-9B7DDE511DD8}.GIF"), "3844e6736f30deb5da1d9b7dde511dd8.gif");
    assert_eq!(normalize_name("ABCDEF"), "abcdef");
    let job = image_job(Some("https://x/y"), None, Some("{AB-CD}.PNG")).unwrap();
    assert_eq!((job.url.as_str(), job.name.as_deref()), ("https://x/y", Some("abcd.png")));
    assert!(image_job(None, Some("/local/path"), None).is_none());
    assert!(image_job(None, None, None).is_none());
    assert_eq!(format_value(12), "12 条");
    assert_eq!(profile_line(0), None);
    assert_eq!(profile_line(3), Some("发言 3 条".to_string()));
    assert_eq!(board_place(true, 30, 4), Some((5, 30)));
    assert_eq!(board_place(false, 30, 4), None);
    assert_eq!(board_place(true, 0, 4), None);
}

#[test]
fn admin_coin_checks() {
    assert_eq!(CoinOp::parse("ADD"), Some(CoinOp::Add));
    assert_eq!(CoinOp::parse("减"), Some(CoinOp::Sub));
    assert_eq!(CoinOp::parse("设为"), Some(CoinOp::Assign));
    assert_eq!(CoinOp::parse("mul"), None);
    assert_eq!(coin_check(CoinOp::Add, None, Some(5)), CoinCheck::NoTarget);
    assert_eq!(coin_check(CoinOp::Add, Some(99), Some(5)), CoinCheck::BadTarget);
    assert_eq!(coin_check(CoinOp::Add, Some(123456), None), CoinCheck::NoAmount);
    assert_eq!(coin_check(CoinOp::Sub, Some(123456), Some(0)), CoinCheck::NotPositive);
    assert_eq!(coin_check(CoinOp::Assign, Some(123456), Some(-1)), CoinCheck::Negative);
    assert_eq!(coin_check(CoinOp::Assign, Some(123456), Some(0)), CoinCheck::Go);
    assert_eq!(sub_outcome(0, 10), SubOutcome::Nothing);
    assert_eq!(sub_outcome(4, 10), SubOutcome::Emptied);
    assert_eq!(sub_outcome(10, 10), SubOutcome::Full);
    assert_eq!(coin_reason(CoinOp::Add, 42), "管理员加币·操作者 42");
}

#[test]
fn personal_data_text() {
    let mut card = MyDataCard {
        name: "阿六".to_string(),
        uid: 42,
        uin: 123456,
        avatar: None,
        coin: 350,
        exp: 1200,
        level: LevelInfo { level: 3, into_level: 200, level_span: 500 },
        stats: vec!["连签 3 天".to_string(), "发言 10 条".to_string()],
        games: vec![],
    };
    assert_eq!(text_summary(&card), "阿六 的数据\n游戏币：350\n等级：Lv.3（200/500），经验 1200\n连签 3 天\n发言 10 条");
    card.games = vec!["画板落格 2 格".to_string()];
    assert!(text_summary(&card).ends_with("发言 10 条\n战绩\n画板落格 2 格"));
    assert_eq!(online_notice(10001, 14, 60, "2025-01-01 08:00:00"), "abot 已上线\n账号 10001\n插件 14，命令 60\n2025-01-01 08:00:00");
}

#[test]
fn names_parse_back() {
    for s in [Stat::Spd, Stat::Sta, Stat::Brs, Stat::Agi, Stat::Luk] {
        assert_eq!(Stat::parse(s.name()), Some(s));
        assert_eq!(Stat::parse(&format!("  {} ", s.name())), Some(s));
    }
    assert_eq!(Stat::parse("运"), Some(Stat::Luk));
    assert_eq!(Stat::parse("力"), None);
    for c in 0..6i16 {
        assert_eq!(color_index(color_name(c)), Some(c));
        assert_eq!(color_index(&format!(" {} ", color_name(c))), Some(c));
    }
    assert_eq!(color_index("黑"), None);
    for d in [Difficulty::Easy, Difficulty::Normal, Difficulty::Hard, Difficulty::Master] {
        assert_eq!(Difficulty::try_parse(d.name()), Some(d));
    }
    assert_eq!(Difficulty::try_parse(" 困难 "), Some(Difficulty::Hard));
    assert_eq!(Difficulty::try_parse("Easy"), None);
    for it in Item::ALL {
        assert_eq!(Item::parse(it.name()), Some(it));
        assert_eq!(Item::parse(&format!("  {} ", it.name())), Some(it));
        assert_eq!(Difficulty::try_parse(it.name()), None);
    }
    assert_eq!(Item::parse("名牌"), Some(Item::NameTag));
    assert_eq!(Item::parse("冲"), None);
    for f in Facility::ALL {
        assert_eq!(Facility::parse(f.name()), Some(f));
    }
    assert_eq!(Facility::parse(" 仓库 "), Some(Facility::Warehouse));
}

#[test]
fn item_groups_and_trait_bits() {
    for it in Item::ALL {
        let groups = [
            Item::RACE.contains(&it),
            Item::TRAIN.contains(&it),
            Item::RECOVERY.contains(&it),
            Item::TREASURE.contains(&it),
        ];
        assert_eq!(groups.iter().filter(|&&g| g).count(), 1);
        assert_eq!(it.kind() == ItemKind::Race, groups[0]);
        assert_eq!(it.kind() == ItemKind::Train, groups[1]);
        assert_eq!(it.kind() == ItemKind::Use, groups[2] || groups[3]);
        let class = if groups[0] { "道具" } else if groups[1] { "训练" } else if groups[2] { "恢复" } else { "珍材" };
        assert_eq!(it.gacha_class_name(), class);
    }
    for t in Trait::ALL {
        assert!(t.in_mask(t.bit()));
        assert!(!t.in_mask(0));
        for u in Trait::ALL {
            if t != u {
                assert!(!t.in_mask(u.bit()));
            }
        }
    }
    assert_eq!(Trait::from_mask(Trait::Gale.bit() | Trait::LateSurge.bit()), vec![Trait::LateSurge, Trait::Gale]);
    assert_eq!(Trait::from_mask(0), vec![]);
    assert_eq!(Trait::from_mask(1 << 10), vec![]);
}
