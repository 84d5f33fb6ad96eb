use abot::bottle::{
    after_pickup, comment_valid, confirm_answer, delete_outcome, discuss_outcome, display_name, is_master,
    keep_images, moderation_status, msg_key, nickname_of, remaining_text, remaining_valid, review_decision,
    score_valid, status_text, text_brief, throw_cost, trimmed_sum, visible, DeleteOutcome, DiscussOutcome,
    PicAction, PicFlow, Scene, check_answer, throw_end, CheckAnswer, ThrowEnd,
};

#[test]
fn throw_prices_and_limits() {
    assert_eq!(throw_cost(false, 0), 2);
    assert_eq!(throw_cost(true, 0), 3);
    assert_eq!(throw_cost(true, 3), 12);
    assert!(remaining_valid(-1) && remaining_valid(1) && remaining_valid(1000));
    assert!(!remaining_valid(0) && !remaining_valid(1001) && !remaining_valid(-2));
    assert_eq!(keep_images(5), (3, true));
    assert_eq!(keep_images(2), (2, false));
}

#[test]
fn picture_dialogue() {
    let mut f = PicFlow::start(false);
    assert_eq!(f.wait_secs(), 120);
    assert_eq!(f.on_message("", 1), PicAction::Ack(1));
    assert_eq!(f.on_message("", 1), PicAction::Wait);
    assert_eq!(f.wait_secs(), 4);
    assert_eq!(f.on_quiet(), PicAction::Ack(2));
    assert_eq!(f.wait_secs(), 120);
    assert_eq!(f.on_message("  你好 ", 0), PicAction::TakeText);
    assert!(f.has_text);
    assert_eq!(f.on_message("还有", 0), PicAction::AskAgain);
    assert_eq!(f.on_message("", 4), PicAction::Full(true));
    assert_eq!(f.images, 3);
    let mut g = PicFlow::start(true);
    assert_eq!(g.on_message(" OK ", 0), PicAction::Finish);
    assert_eq!(g.on_message("取消", 2), PicAction::Cancel);
    assert_eq!(g.on_message("", 3), PicAction::Full(false));
    assert_eq!(g.on_quiet(), PicAction::Ack(3));
    assert_eq!(g.on_quiet(), PicAction::GiveUp);
}

#[test]
fn confirmation_words() {
    assert_eq!(confirm_answer(" Y "), Some(true));
    assert_eq!(confirm_answer("丢"), Some(true));
    assert_eq!(confirm_answer("NO"), Some(false));
    assert_eq!(confirm_answer("算了"), Some(false));
    assert_eq!(confirm_answer("也许"), None);
    assert_eq!(moderation_status(true), "pending");
    assert_eq!(moderation_status(false), "ai_approved");
}

#[test]
fn pickups_and_scores() {
    assert_eq!(after_pickup(4, 3), (5, 2));
    assert_eq!(after_pickup(4, -1), (5, -1));
    assert_eq!(after_pickup(4, 0), (5, 0));
    assert_eq!(trimmed_sum(&[5, 5]), None);
    assert_eq!(trimmed_sum(&[1, 3, 5]), Some((4, 2)));
    let many: Vec<i16> = (0..40).map(|i| (i % 5 + 1) as i16).collect();
    let mut sorted = many.clone();
    sorted.sort();
    assert_eq!(trimmed_sum(&sorted), Some((sorted[2..38].iter().map(|&x| x as i64).sum(), 36)));
    assert!(score_valid(1) && score_valid(5) && !score_valid(0) && !score_valid(6));
    assert!(comment_valid("  不错啊 ") && !comment_valid(" 好 "));
}

#[test]
fn comments_deletion_and_visibility() {
    assert_eq!(discuss_outcome(2), DiscussOutcome::Added);
    assert_eq!(discuss_outcome(3), DiscussOutcome::LimitReached);
    assert_eq!(delete_outcome(None, 1, true), DeleteOutcome::NotFound);
    assert_eq!(delete_outcome(Some(2), 1, false), DeleteOutcome::NotOwner);
    assert_eq!(delete_outcome(Some(2), 1, true), DeleteOutcome::Deleted);
    assert_eq!(delete_outcome(Some(1), 1, false), DeleteOutcome::Deleted);
    assert!(!is_master(0, 0) && is_master(7, 7));
    assert!(visible(1, "pending", false, 1, 0));
    assert!(!visible(1, "pending", false, 2, 0));
    assert!(visible(1, "pending", false, 9, 9));
    assert!(visible(1, "ai_approved", false, 2, 0));
    assert!(!visible(1, "approved", true, 1, 0));
}

#[test]
fn review_and_texts() {
    let (s, note) = review_decision("approve", 12).unwrap();
    assert_eq!((s, note.as_str()), ("approved", "你的漂流瓶 12 已通过审核"));
    let (s, note) = review_decision("reject", 3).unwrap();
    assert_eq!((s, note.as_str()), ("rejected", "你的漂流瓶 3 未通过审核"));
    assert_eq!(review_decision("ban", 3).unwrap_err(), "未知动作：ban");
    assert_eq!(status_text("pending"), "待审核");
    assert_eq!(status_text("approved"), "已通过");
    assert_eq!(status_text("rejected"), "未通过");
    assert_eq!(status_text("zzz"), "未知");
    assert_eq!(remaining_text(-1), "不限");
    assert_eq!(remaining_text(7), "7");
    assert_eq!(text_brief(&None), "（无文本）");
    assert_eq!(text_brief(&Some(String::new())), "（无文本）");
    assert_eq!(text_brief(&Some("短".to_string())), "短");
    let long: String = "一".repeat(31);
    assert_eq!(text_brief(&Some(long)), format!("{}…", "一".repeat(30)));
    assert_eq!(display_name(&Some("  ".to_string()), 5), "5");
    assert_eq!(display_name(&Some("阿六".to_string()), 5), "阿六");
    assert_eq!(nickname_of("  "), None);
    assert_eq!(nickname_of(" 阿六 "), Some("阿六".to_string()));
}

#[test]
fn sent_message_keys() {
    assert_eq!(msg_key(Scene::Group, 123, Some(456), 0), Some("ob:g:123:456".to_string()));
    assert_eq!(msg_key(Scene::Friend, 9, None, 77), Some("mk:f:9:77".to_string()));
    assert_eq!(msg_key(Scene::Temp, 9, None, 0), None);
}

#[test]
fn throwing_ends_by_its_checks_in_order() {
    assert_eq!(throw_end(0, true, 0, 100, Some(true), false, true), ThrowEnd::BadRemaining);
    assert_eq!(throw_end(-1, false, 0, 100, Some(true), false, true), ThrowEnd::Empty);
    assert_eq!(throw_end(5, true, 2, 8, Some(true), false, true), ThrowEnd::TooPoor { cost: 9 });
    assert_eq!(throw_end(5, true, 2, 9, Some(false), false, true), ThrowEnd::Declined);
    assert_eq!(throw_end(5, true, 2, 9, None, false, true), ThrowEnd::NoAnswer);
    assert_eq!(throw_end(5, true, 2, 9, Some(true), false, false), ThrowEnd::ChargeFailed);
    assert_eq!(throw_end(5, true, 2, 9, Some(true), true, true), ThrowEnd::Thrown { cost: 9, held: true });
    assert_eq!(throw_end(-1, false, 1, 5, Some(true), false, true), ThrowEnd::Thrown { cost: 5, held: false });
}

#[test]
fn a_hidden_bottle_reads_as_missing() {
    let missing = check_answer(None, 20000, 0);
    assert_eq!(missing, CheckAnswer::NoSuchBottle);
    assert_eq!(check_answer(Some((10001, "pending", false)), 20000, 0), missing);
    assert_eq!(check_answer(Some((20000, "approved", true)), 20000, 0), missing);
    assert_eq!(check_answer(Some((10001, "rejected", false)), 20000, 30000), missing);
    assert_eq!(check_answer(Some((10001, "pending", false)), 10001, 0), CheckAnswer::Show);
    assert_eq!(check_answer(Some((10001, "pending", false)), 30000, 30000), CheckAnswer::Show);
    assert_eq!(check_answer(Some((10001, "ai_approved", false)), 20000, 0), CheckAnswer::Show);
}
