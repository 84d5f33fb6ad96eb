use abot::place::{
    apply_strokes, block_origin, board_view, cooldown_msg, cooldown_remaining, cooldown_secs, group_by_person,
    history_head, history_scope, in_bounds, is_clean_kw, parse_block, parse_days, parse_replay_args, parse_uin,
    parse_xy, price, profile_line, replay_cost, try_place, BoardView, HistoryRow, HistoryScope, PlaceResult, PlaceStep, charge_result,
    ReplayArgs, H, W,
};

#[test]
fn cooldown_and_price_formulas() {
    assert_eq!(cooldown_secs(0), 7200);
    assert_eq!(cooldown_secs(10), 4800);
    assert_eq!(cooldown_secs(30), 900);
    assert_eq!(price(0, 0), 1);
    assert_eq!(price(500, 0), 11);
    assert_eq!(price(500, 5), 6);
    assert_eq!(price(1_000_000, 0), 20);
    assert_eq!(replay_cost(0), 1);
    assert_eq!(replay_cost(2500), 3);
    assert_eq!(replay_cost(1_000_000_000), 88);
}

#[test]
fn coordinates_blocks_and_days() {
    assert_eq!(parse_xy("100,72"), Some((100, 72)));
    assert_eq!(parse_xy("100，72"), Some((100, 72)));
    assert_eq!(parse_xy(" 3 : 4 "), Some((3, 4)));
    assert_eq!(parse_xy("1,2,3"), None);
    assert!(in_bounds(0, 0) && in_bounds(W as i32 - 1, H as i32 - 1));
    assert!(!in_bounds(W as i32, 0) && !in_bounds(0, -1));
    assert_eq!(parse_block("#3"), Some(3));
    assert_eq!(parse_block("＃16"), Some(16));
    assert_eq!(parse_block("17"), None);
    assert_eq!(block_origin(1), (0, 0));
    assert_eq!(block_origin(6), (64, 36));
    assert_eq!(block_origin(200), (192, 108));
    assert_eq!(parse_days("7天"), Some(7));
    assert_eq!(parse_days("3d"), Some(3));
    assert_eq!(parse_days("7"), None);
    assert!(is_clean_kw("净") && is_clean_kw("share") && !is_clean_kw("全"));
}

#[test]
fn replay_options() {
    assert_eq!(parse_replay_args("7天 step=5 帧=40"), ReplayArgs { days: Some(7), step: Some(5), frames: Some(40) });
    assert_eq!(parse_replay_args("FRAMES=12 2D"), ReplayArgs { days: Some(2), step: None, frames: Some(12) });
    assert_eq!(parse_replay_args(""), ReplayArgs { days: None, step: None, frames: None });
}

#[test]
fn later_strokes_win() {
    let mut buf = vec![0u8; (W * H) as usize];
    apply_strokes(&mut buf, &[(1, 0, 5), (1, 0, 9), (0, 1, 3), (999, 0, 7)]);
    assert_eq!(buf[1], 9);
    assert_eq!(buf[W as usize], 3);
    assert_eq!(buf.iter().filter(|&&c| c != 0).count(), 2);
}

#[test]
fn placement_decisions() {
    assert_eq!(cooldown_remaining(0, None, 0), None);
    assert_eq!(cooldown_remaining(0, Some(0), 60_000_000), Some((119, 120)));
    assert_eq!(cooldown_remaining(0, Some(0), 7200_000_000), None);
    assert_eq!(try_place(300, 0, None, 0, 1, 0, 0, 100), PlaceStep::Refuse(PlaceResult::OutOfRange));
    assert_eq!(
        try_place(1, 1, Some((5, 120)), 0, 1, 0, 0, 100),
        PlaceStep::Refuse(PlaceResult::Cooldown { remain_min: 5, interval_min: 120 })
    );
    assert_eq!(try_place(1, 1, None, 4, 4, 0, 0, 100), PlaceStep::Refuse(PlaceResult::Same));
    assert_eq!(try_place(1, 1, None, 0, 4, 500, 0, 10), PlaceStep::Refuse(PlaceResult::Poor { cost: 11, have: 10 }));
    assert_eq!(
        try_place(1, 1, None, 0, 4, 500, 0, 11),
        PlaceStep::Charge { cost: 11, row: HistoryRow { x: 1, y: 1, old_color: 0, new_color: 4 }, exp: 2 }
    );
    assert_eq!(cooldown_msg(5, 120, 3), "手还没缓过来，再等 5 分钟（你 3 级，间隔 120 分钟）");
    assert_eq!(charge_result(11, true, 89), PlaceResult::Placed { cost: 11, balance: 89 });
    assert_eq!(charge_result(11, false, 7), PlaceResult::Poor { cost: 11, have: 7 });
}

#[test]
fn viewing_and_history() {
    assert_eq!(board_view(""), BoardView::Full);
    assert_eq!(board_view(" 干净 "), BoardView::Clean);
    assert_eq!(board_view("10,20"), BoardView::Zoom(10, 20));
    assert_eq!(board_view("999,20"), BoardView::OffCanvas);
    assert_eq!(board_view("看看"), BoardView::Usage);
    assert_eq!(parse_uin(" 123456 "), Some(123456));
    assert_eq!(parse_uin("99"), None);
    assert_eq!(history_scope(false, Some(123456), "1,2"), HistoryScope::Own);
    assert_eq!(history_scope(true, Some(123456), ""), HistoryScope::Person(123456));
    assert_eq!(history_scope(true, None, "654321"), HistoryScope::Person(654321));
    assert_eq!(history_scope(true, None, ""), HistoryScope::Recent);
    assert_eq!(history_scope(true, None, "1,2"), HistoryScope::Cell(1, 2));
    assert_eq!(history_scope(true, None, "1,999"), HistoryScope::OffCanvas);
    assert_eq!(history_scope(true, None, "啊"), HistoryScope::Usage);
    assert_eq!(history_head("画板最近落格", 5, 2), "画板最近落格\n5 笔 · 2 人");
    assert_eq!(history_head("h", 500, 120), "h\n500 笔 · 120 人（仅显示活跃前 99 人）");
    assert_eq!(profile_line(0), None);
    assert_eq!(profile_line(12), Some("画板落格 12 格".to_string()));
}

#[test]
fn history_grouped_by_person_in_first_seen_order() {
    let g = group_by_person(&vec![5, 7, 5, 9, 7, 5]);
    assert_eq!(g, vec![(5, vec![0, 2, 5]), (7, vec![1, 4]), (9, vec![3])]);
    assert!(group_by_person(&vec![]).is_empty());
}
