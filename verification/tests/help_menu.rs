use abot::help::{
    detail_card, detail_text_blocks, effective_key, flag_short_or_long, name_with_off, ordered_plugins,
    overview_groups, param_head, plugin_desc, plugin_off, render_overview, resolve_plugin, status_color,
    status_word, syn_token, synopsis, ArgInfo, ArgKind, Category, Palette, PluginInfo, TriggerInfo,
};

fn plugin(key: &str, path: &str, name: &str, desc: &str, cat: Category, hidden: bool) -> PluginInfo {
    PluginInfo {
        key: key.to_string(),
        mod_path: path.to_string(),
        name: name.to_string(),
        description: desc.to_string(),
        category: cat,
        hidden,
        can_disable: true,
        default_enable: true,
    }
}

fn arg(kind: ArgKind, name: &str, short: &str, long: &str, required: bool, desc: &str) -> ArgInfo {
    ArgInfo {
        kind,
        name: name.to_string(),
        short: short.to_string(),
        long: long.to_string(),
        required,
        desc: desc.to_string(),
    }
}

fn command(key: &str, words: &[&str], order: i32, desc: &str, args: Vec<ArgInfo>) -> TriggerInfo {
    TriggerInfo {
        is_command: true,
        hidden: false,
        plugin_key: key.to_string(),
        key: words[0].to_string(),
        words: words.iter().map(|w| w.to_string()).collect(),
        name: words[0].to_string(),
        id: format!("{key}::{}", words[0]),
        description: desc.to_string(),
        usage: String::new(),
        synopsis: String::new(),
        order,
        args,
    }
}

fn registry() -> (Vec<PluginInfo>, Vec<TriggerInfo>) {
    let ps = vec![
        plugin("bottle", "abot::plugins::bottle", "漂流瓶", "跨群漂流瓶", Category::Fun, false),
        plugin("", "abot::plugins::ping", "存活探针", "", Category::Tool, false),
        plugin("chatlog", "abot::plugins::chatlog", "消息记录", "", Category::Tool, true),
        plugin("horse", "abot::plugins::horse", "赛马", "养成赛马", Category::Fun, false),
    ];
    let ts = vec![
        command("bottle", &["捞漂流瓶", "捡漂流瓶"], 2, "捞一个", vec![]),
        command("bottle", &["丢漂流瓶", "扔漂流瓶"], 1, "丢一个", vec![
            arg(ArgKind::Flag, "匿名", "a", "anonymous", false, "匿名投放"),
            arg(ArgKind::Opt, "次数", "r", "remaining", false, ""),
            arg(ArgKind::Rest, "内容", "", "", false, "瓶子的文字"),
        ]),
        command("ping", &["ping"], 0, "测试机器人是否在线", vec![]),
    ];
    (ps, ts)
}

#[test]
fn keys_and_descriptions() {
    let (ps, ts) = registry();
    assert_eq!(effective_key(&ps[0]), "bottle");
    assert_eq!(effective_key(&ps[1]), "ping");
    assert_eq!(plugin_desc(&ps[1], &ts), "测试机器人是否在线");
    assert_eq!(plugin_desc(&ps[0], &ts), "跨群漂流瓶");
    assert!(plugin_off(&ps[0], false) && !plugin_off(&ps[0], true));
    assert_eq!(name_with_off("赛马", true), "赛马（已停用）");
    assert_eq!(status_word(true), "停用");
    assert_eq!(status_word(false), "启用");
    let pal = Palette { primary: "#123456".to_string(), muted: "#999999".to_string(), soft: "#eeeeee".to_string() };
    assert_eq!(status_color(&pal, true), "#999999");
    assert_eq!(status_color(&pal, false), "#123456");
}

#[test]
fn menu_order_and_overview() {
    let (ps, ts) = registry();
    assert_eq!(ordered_plugins(&ps), vec![0, 3, 1]);
    let groups = overview_groups(&ps, &ts, &vec![true, true, true, false]);
    assert_eq!(groups.len(), 2);
    assert_eq!(groups[0].0, "娱乐");
    assert_eq!(groups[0].1.iter().map(|r| (r.idx, r.name.as_str(), r.off)).collect::<Vec<_>>(), vec![(1, "漂流瓶", false), (2, "赛马", true)]);
    assert_eq!(groups[1].1[0].idx, 3);
    let text = render_overview(&groups);
    assert_eq!(
        text,
        "【娱乐】\n1. 漂流瓶 —— 跨群漂流瓶\n2. 赛马（已停用） —— 养成赛马\n\n【工具】\n3. 存活探针 —— 测试机器人是否在线\n\n发送「help 序号或功能名」看某个功能的详细命令，例如「help 1」「help 漂流瓶」。"
    );
    assert_eq!(render_overview(&vec![]), "暂无可用命令\n\n发送「help 序号或功能名」看某个功能的详细命令，例如「help 1」「help 漂流瓶」。");
}

#[test]
fn resolving_targets() {
    let (ps, ts) = registry();
    assert_eq!(resolve_plugin("1", &ps, &ts), Some(0));
    assert_eq!(resolve_plugin("4", &ps, &ts), None);
    assert_eq!(resolve_plugin("扔漂流瓶", &ps, &ts), Some(0));
    assert_eq!(resolve_plugin("赛马", &ps, &ts), Some(3));
    assert_eq!(resolve_plugin("horse", &ps, &ts), Some(3));
    assert_eq!(resolve_plugin("消息记录", &ps, &ts), None);
    assert_eq!(resolve_plugin("不存在", &ps, &ts), None);
}

#[test]
fn usage_lines() {
    let flag = arg(ArgKind::Flag, "匿名", "a", "anonymous", false, "");
    let opt = arg(ArgKind::Opt, "次数", "r", "remaining", false, "");
    let need = arg(ArgKind::Positional, "编号", "", "", true, "");
    let rest = arg(ArgKind::Rest, "内容", "", "", false, "");
    let long_only = arg(ArgKind::Flag, "全部", "", "full", false, "");
    assert_eq!(flag_short_or_long(&flag), "-a");
    assert_eq!(flag_short_or_long(&long_only), "--full");
    assert_eq!(syn_token(&opt), "[-r 次数]");
    assert_eq!(syn_token(&need), "<编号>");
    assert_eq!(synopsis("丢漂流瓶", &vec![flag.clone(), opt.clone(), need.clone(), rest.clone()]), "丢漂流瓶 [-a] [-r 次数] <编号> [内容]");
    assert_eq!(param_head(&flag), "-a, --anonymous");
    assert_eq!(param_head(&opt), "-r, --remaining 次数");
    assert_eq!(param_head(&long_only), "--full");
    assert_eq!(param_head(&need), "编号");
}

#[test]
fn detail_card_and_text() {
    let (ps, ts) = registry();
    let card = detail_card(0, &ps, &ts, true, &vec![true, false, true]);
    assert_eq!(card.name, "漂流瓶");
    assert!(!card.off);
    assert_eq!(card.cmds.len(), 2);
    assert_eq!(card.cmds[0].primary, "丢漂流瓶");
    assert_eq!(card.cmds[0].aliases, vec!["扔漂流瓶".to_string()]);
    assert!(card.cmds[0].off);
    assert_eq!(card.cmds[0].synopsis, "丢漂流瓶 [-a] [-r 次数] [内容]");
    assert_eq!(card.cmds[1].idx, 2);
    let blocks = detail_text_blocks(&card);
    assert_eq!(blocks.len(), 3);
    assert_eq!(blocks[0], "【漂流瓶】跨群漂流瓶");
    assert_eq!(
        blocks[1],
        "▸ 1. 丢漂流瓶（别名：扔漂流瓶） 〔已停用〕\n  丢一个\n  用法：丢漂流瓶 [-a] [-r 次数] [内容]\n  · -a, --anonymous：匿名投放\n  · -r, --remaining 次数\n  · 内容：瓶子的文字"
    );
    assert_eq!(blocks[2], "▸ 2. 捞漂流瓶（别名：捡漂流瓶）\n  捞一个\n  用法：捞漂流瓶");
}
