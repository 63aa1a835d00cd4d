use naru::config::action::{Action, WorkspaceReference};
use naru::config::binds::{
    Bind, BindInput, Binds, Key, KeysymLookup, Modifiers, SwitchAction, SwitchBinds, Trigger, ALT,
    COMPOSITOR, CTRL, ISO_LEVEL3_SHIFT, ISO_LEVEL5_SHIFT, SHIFT, SUPER,
};
use naru::config::decode::{
    end_include, parse_include, Config, ConfigPart, IncludeOutcome, Section, SectionPart,
};
use naru::config::layout::{
    BorderRule, CenterFocusedColumn, DefaultPresetSize, Layout, LayoutPart, MediaPlayerAppIds,
    MediaPlayerFixedSide, PresetSize, Struts, TerminalAppIds,
};
use naru::config::load::{
    load_chain, save_last_good, snapshot_path_for, ConfigChoice, ConfigParseResult, ConfigPath,
    ConfigSource, SnapshotStep,
};
use naru::config::node::{parse_arg_node, DecodeError, KeyError, Kind, Node, Value};
use naru::config::path::FilePath;
use naru::config::utils::{
    Flag, FloatOrInt, Literal, MergeWith, Number, NumberError, Percent, PercentError, RegexEq,
};
use naru::config::window_rule::{
    CornerRadius, PopupsRule, RelativeTo, ResolvedPopupsRules, WindowRule,
};
use naru::ipc;
use naru::ipc::{ColumnDisplay, OpenInFixedSide, SizeChange, WorkspaceReferenceArg};

const XF86_SCREEN_SAVER: u32 = 0x1008_ff2d;
const XF86_SCREENSAVER: u32 = 0x1008_1245;

fn lookup(insensitive: u32, exact: u32) -> KeysymLookup {
    KeysymLookup { insensitive, exact }
}

fn value(literal: Literal) -> Value {
    Value { type_tag: None, literal }
}

fn node(name: &str) -> Node {
    Node {
        type_tag: None,
        name: name.to_owned(),
        arguments: Vec::new(),
        properties: Vec::new(),
        children: Vec::new(),
    }
}

fn proportion(x: f64) -> PresetSize {
    PresetSize::Proportion(x.to_bits())
}

#[test]
fn regex_eq_comma_list_matches_any() {
    // A list matches any listed app-id, none else.
    let re = RegexEq::from_str("firefox, org.kde.konsole, kitty").unwrap();
    assert!(re.0.is_match("firefox"));
    assert!(re.0.is_match("org.kde.konsole"));
    assert!(re.0.is_match("kitty"));
    assert!(!re.0.is_match("chromium"));
}

#[test]
fn regex_eq_single_pattern_is_unchanged() {
    let re = RegexEq::from_str(".*alacritty").unwrap();
    assert_eq!(re.0.as_str(), ".*alacritty");
    assert!(re.0.is_match("org.alacritty"));
}

#[test]
fn regex_eq_quantifier_comma_falls_back_to_single_regex() {
    let re = RegexEq::from_str("^a{1,2}$").unwrap();
    assert!(re.0.is_match("a"));
    assert!(re.0.is_match("aa"));
    assert!(!re.0.is_match("aaa"));
}

#[test]
fn pattern_list_has_an_exact_form() {
    let re = RegexEq::from_str("a, b").unwrap();
    assert_eq!(re.0.as_str(), "(?:a)|(?:b)");
    // An empty entry makes it no list.
    let re = RegexEq::from_str("a,,b").unwrap();
    assert_eq!(re.0.as_str(), "a,,b");
    // White space that isn't ASCII is trimmed too.
    let re = RegexEq::from_str("a,\u{2003}b\u{00a0}").unwrap();
    assert_eq!(re.0.as_str(), "(?:a)|(?:b)");
}

#[test]
fn invalid_pattern_is_refused() {
    assert!(RegexEq::from_str("(").is_err());
    assert!(RegexEq::from_str("a, (").is_err());
}

#[test]
fn patterns_are_equal_by_their_text() {
    let a = RegexEq::from_str("a+").unwrap();
    let b = RegexEq::from_str("a+").unwrap();
    let c = RegexEq::from_str("aa*").unwrap();
    assert!(a == b);
    assert!(a != c);
}

#[test]
fn parse_xf86_screensaver() {
    assert_eq!(
        Key::from_str("XF86ScreenSaver", lookup(XF86_SCREENSAVER, XF86_SCREEN_SAVER)).unwrap(),
        Key { trigger: Trigger::Keysym(XF86_SCREEN_SAVER), modifiers: Modifiers::empty() },
    );
    assert_eq!(
        Key::from_str("XF86Screensaver", lookup(XF86_SCREENSAVER, XF86_SCREENSAVER)).unwrap(),
        Key { trigger: Trigger::Keysym(XF86_SCREENSAVER), modifiers: Modifiers::empty() },
    );
    assert_eq!(
        Key::from_str("xf86screensaver", lookup(XF86_SCREENSAVER, 0)).unwrap(),
        Key { trigger: Trigger::Keysym(XF86_SCREEN_SAVER), modifiers: Modifiers::empty() },
    );
}

#[test]
fn parse_iso_level_shifts() {
    // The keysym of a small letter a.
    let a = lookup(0x61, 0x41);
    assert_eq!(
        Key::from_str("ISO_Level3_Shift+A", a).unwrap(),
        Key { trigger: Trigger::Keysym(0x61), modifiers: Modifiers(ISO_LEVEL3_SHIFT) },
    );
    assert_eq!(
        Key::from_str("Mod5+A", a).unwrap(),
        Key { trigger: Trigger::Keysym(0x61), modifiers: Modifiers(ISO_LEVEL3_SHIFT) },
    );
    assert_eq!(
        Key::from_str("ISO_Level5_Shift+A", a).unwrap(),
        Key { trigger: Trigger::Keysym(0x61), modifiers: Modifiers(ISO_LEVEL5_SHIFT) },
    );
    assert_eq!(
        Key::from_str("Mod3+A", a).unwrap(),
        Key { trigger: Trigger::Keysym(0x61), modifiers: Modifiers(ISO_LEVEL5_SHIFT) },
    );
}

#[test]
fn modifiers_are_read_in_any_case_and_trimmed() {
    let key = Key::from_str(" MOD + Control+shift +Alt+WIN+T", lookup(0x74, 0x54)).unwrap();
    assert_eq!(key.modifiers.0, COMPOSITOR | CTRL | SHIFT | ALT | SUPER);
    assert_eq!(key.trigger, Trigger::Keysym(0x74));
    let key = Key::from_str("ctrl+super+T", lookup(0x74, 0x54)).unwrap();
    assert_eq!(key.modifiers.0, CTRL | SUPER);
}

#[test]
fn named_triggers_need_no_keysym() {
    let names = [
        ("MouseLeft", Trigger::MouseLeft),
        ("mouseright", Trigger::MouseRight),
        ("MOUSEMIDDLE", Trigger::MouseMiddle),
        ("MouseBack", Trigger::MouseBack),
        ("MouseForward", Trigger::MouseForward),
        ("WheelScrollDown", Trigger::WheelScrollDown),
        ("WheelScrollUp", Trigger::WheelScrollUp),
        ("WheelScrollLeft", Trigger::WheelScrollLeft),
        ("WheelScrollRight", Trigger::WheelScrollRight),
        ("TouchpadScrollDown", Trigger::TouchpadScrollDown),
        ("TouchpadScrollUp", Trigger::TouchpadScrollUp),
        ("TouchpadScrollLeft", Trigger::TouchpadScrollLeft),
        ("TouchpadScrollRight", Trigger::TouchpadScrollRight),
    ];
    for (name, trigger) in names {
        let text = format!("Mod+{name}");
        assert_eq!(Key::keysym_name(&text), None);
        let key = Key::from_str(&text, lookup(0, 0)).unwrap();
        assert_eq!(key, Key { trigger, modifiers: Modifiers(COMPOSITOR) });
    }
    assert_eq!(Key::keysym_name("Mod+T"), Some("T"));
    assert_eq!(Key::keysym_name("Foo+T"), None);
}

#[test]
fn wrong_keys_are_reported() {
    match Key::from_str("Foo +T", lookup(0x74, 0x54)) {
        Err(KeyError::InvalidModifier(part)) => assert_eq!(part, "Foo"),
        other => panic!("{other:?}"),
    }
    match Key::from_str("Mod+Nothing", lookup(0, 0)) {
        Err(KeyError::InvalidKey(name)) => assert_eq!(name, "Nothing"),
        other => panic!("{other:?}"),
    }
    // The name of the key isn't trimmed.
    match Key::from_str("Mod+ MouseLeft", lookup(0, 0)) {
        Err(KeyError::InvalidKey(name)) => assert_eq!(name, " MouseLeft"),
        other => panic!("{other:?}"),
    }
}

fn bind_node(name: &str, children: usize) -> Node {
    let mut n = node(name);
    for _ in 0..children {
        n.children.push(node("action"));
    }
    n
}

fn input(keysym: u32, action: Option<Result<Action, u64>>) -> BindInput {
    BindInput { lookup: lookup(keysym, keysym), action }
}

#[test]
fn bind_takes_its_properties() {
    let mut n = bind_node("Mod+T", 1);
    n.properties.push(("repeat".into(), value(Literal::Bool(false))));
    n.properties.push(("cooldown-ms".into(), value(Literal::Int(Some(150)))));
    n.properties.push(("allow-when-locked".into(), value(Literal::Bool(true))));
    n.properties.push(("allow-inhibiting".into(), value(Literal::Bool(false))));
    n.properties.push(("hotkey-overlay-title".into(), value(Literal::String("Run".into()))));
    let mut errors = Vec::new();
    let action = Action::Spawn(vec!["foot".into()]);
    let bind = Bind::decode_node(&n, input(0x74, Some(Ok(action))), &mut errors).unwrap();
    assert!(errors.is_empty(), "{errors:?}");
    assert!(!bind.repeat);
    assert_eq!(bind.cooldown, Some(150));
    assert!(bind.allow_when_locked);
    assert!(!bind.allow_inhibiting);
    assert_eq!(bind.hotkey_overlay_title, Some(Some("Run".to_owned())));
    assert!(matches!(bind.action, Action::Spawn(c) if c == vec!["foot".to_owned()]));
}

#[test]
fn bind_title_can_be_hidden() {
    let mut n = bind_node("Mod+T", 1);
    n.properties.push(("hotkey-overlay-title".into(), value(Literal::Null)));
    let mut errors = Vec::new();
    let bind = Bind::decode_node(&n, input(0x74, Some(Ok(Action::Suspend))), &mut errors).unwrap();
    assert!(errors.is_empty());
    assert_eq!(bind.hotkey_overlay_title, Some(None));
    assert!(bind.repeat);
    assert!(bind.allow_inhibiting);
}

#[test]
fn inhibit_toggle_is_never_inhibited() {
    let mut n = bind_node("Mod+Escape", 1);
    n.properties.push(("allow-inhibiting".into(), value(Literal::Bool(true))));
    let mut errors = Vec::new();
    let action = Action::ToggleKeyboardShortcutsInhibit;
    let bind = Bind::decode_node(&n, input(0xff1b, Some(Ok(action))), &mut errors).unwrap();
    assert!(!bind.allow_inhibiting);
}

#[test]
fn only_spawning_binds_work_while_locked() {
    let mut n = bind_node("Mod+T", 1);
    n.properties.push(("allow-when-locked".into(), value(Literal::Bool(true))));
    let mut errors = Vec::new();
    Bind::decode_node(&n, input(0x74, Some(Ok(Action::Suspend))), &mut errors).unwrap();
    assert!(matches!(errors[..], [DecodeError::LockedBind]));
    errors.clear();
    let sh = Action::SpawnSh("ls".into());
    Bind::decode_node(&n, input(0x74, Some(Ok(sh))), &mut errors).unwrap();
    assert!(errors.is_empty());
}

#[test]
fn wrong_binds_are_reported() {
    let mut errors = Vec::new();
    // No action: the key is still taken.
    let bind = Bind::decode_node(&bind_node("Mod+T", 0), input(0x74, None), &mut errors).unwrap();
    assert!(matches!(errors[..], [DecodeError::MissingAction]));
    assert!(matches!(bind.action, Action::Spawn(c) if c.is_empty()));
    errors.clear();
    // Too many actions.
    Bind::decode_node(&bind_node("T", 3), input(0x74, Some(Ok(Action::Suspend))), &mut errors)
        .unwrap();
    assert!(matches!(errors[..], [DecodeError::ManyActions, DecodeError::ManyActions]));
    errors.clear();
    // An action that can't be read.
    Bind::decode_node(&bind_node("T", 1), input(0x74, Some(Err(9))), &mut errors).unwrap();
    assert!(matches!(errors[..], [DecodeError::Action(9)]));
    errors.clear();
    // Everything else that may be wrong with the node.
    let mut n = bind_node("T", 1);
    n.type_tag = Some("u8".into());
    n.arguments.push(value(Literal::Null));
    n.properties.push(("foo".into(), value(Literal::Null)));
    n.properties.push(("repeat".into(), value(Literal::Null)));
    n.properties.push(("cooldown-ms".into(), value(Literal::Int(Some(-1)))));
    Bind::decode_node(&n, input(0x74, Some(Ok(Action::Suspend))), &mut errors).unwrap();
    assert!(matches!(errors[0], DecodeError::TypeName));
    assert!(matches!(errors[1], DecodeError::Argument));
    assert!(matches!(&errors[2], DecodeError::Property { name } if name == "foo"));
    assert!(matches!(errors[3], DecodeError::Kind(Kind::Bool)));
    assert!(matches!(errors[4], DecodeError::Conversion));
    assert_eq!(errors.len(), 5);
    errors.clear();
    // A name that isn't a key.
    let r = Bind::decode_node(
        &bind_node("Nope", 1),
        input(0, Some(Ok(Action::Suspend))),
        &mut errors,
    );
    assert!(matches!(r, Err(DecodeError::Keybind(KeyError::InvalidKey(_)))));
}

#[test]
fn first_of_two_binds_for_a_key_stays() {
    let mut section = node("binds");
    section.children.push(bind_node("Mod+A", 1));
    section.children.push(bind_node("Mod+B", 1));
    section.children.push(bind_node("mod+a", 1));
    section.children.push(bind_node("Bad+a", 1));
    let inputs = vec![
        input(0x61, Some(Ok(Action::Suspend))),
        input(0x62, Some(Ok(Action::Suspend))),
        input(0x61, Some(Ok(Action::CloseWindow))),
        input(0x61, Some(Ok(Action::CloseWindow))),
    ];
    let mut errors = Vec::new();
    let binds = Binds::decode_node(&section, inputs, &mut errors);
    assert_eq!(binds.0.len(), 2);
    assert!(matches!(binds.0[0].action, Action::Suspend));
    assert!(matches!(errors[0], DecodeError::FirstBind(0)));
    assert!(matches!(errors[1], DecodeError::DuplicateBind(2)));
    assert!(matches!(errors[2], DecodeError::Keybind(KeyError::InvalidModifier(_))));
    assert_eq!(errors.len(), 3);
}

fn bind(keysym: u32, action: Action) -> Bind {
    Bind {
        key: Key { trigger: Trigger::Keysym(keysym), modifiers: Modifiers(COMPOSITOR) },
        action,
        repeat: true,
        cooldown: None,
        allow_when_locked: false,
        allow_inhibiting: true,
        hotkey_overlay_title: None,
    }
}

#[test]
fn later_binds_replace_earlier_ones() {
    let mut binds = Binds(vec![
        bind(1, Action::Suspend),
        bind(2, Action::Suspend),
        bind(3, Action::Suspend),
    ]);
    binds.replace_with(Binds(vec![bind(2, Action::CloseWindow), bind(4, Action::CloseWindow)]));
    let keys: Vec<Trigger> = binds.0.iter().map(|b| b.key.trigger).collect();
    assert_eq!(
        keys,
        vec![Trigger::Keysym(1), Trigger::Keysym(3), Trigger::Keysym(2), Trigger::Keysym(4)],
    );
    assert!(matches!(binds.0[2].action, Action::CloseWindow));
}

#[test]
fn switch_events_are_merged_one_by_one() {
    let mut switches = SwitchBinds::default();
    let mut part = SwitchBinds::default();
    part.lid_close = Some(SwitchAction { spawn: vec!["lock".into()] });
    switches.merge_with(&part);
    let mut part = SwitchBinds::default();
    part.lid_open = Some(SwitchAction { spawn: vec!["wake".into()] });
    switches.merge_with(&part);
    assert_eq!(switches.lid_close.unwrap().spawn, vec!["lock"]);
    assert_eq!(switches.lid_open.unwrap().spawn, vec!["wake"]);
    assert!(switches.tablet_mode_on.is_none());
    assert!(switches.tablet_mode_off.is_none());
}

#[test]
fn requests_with_an_id_are_about_that_window() {
    assert!(matches!(
        Action::from(ipc::Action::CloseWindow { id: None }),
        Action::CloseWindow
    ));
    assert!(matches!(
        Action::from(ipc::Action::CloseWindow { id: Some(7) }),
        Action::CloseWindowById(7)
    ));
    assert!(matches!(
        Action::from(ipc::Action::SetWindowWidth { id: Some(3), change: SizeChange::SetFixed(5) }),
        Action::SetWindowWidthById { id: 3, change: SizeChange::SetFixed(5) }
    ));
    assert!(matches!(
        Action::from(ipc::Action::MoveWorkspaceToIndex {
            index: 2,
            reference: Some(WorkspaceReferenceArg::Name("web".into())),
        }),
        Action::MoveWorkspaceToIndexByRef { new_idx: 2, reference: WorkspaceReference::Name(n) }
            if n == "web"
    ));
    assert!(matches!(
        Action::from(ipc::Action::MoveWorkspaceToIndex { index: 2, reference: None }),
        Action::MoveWorkspaceToIndex(2)
    ));
    assert!(matches!(
        Action::from(ipc::Action::FocusWorkspace { reference: WorkspaceReferenceArg::Index(4) }),
        Action::FocusWorkspace(WorkspaceReference::Index(4))
    ));
    assert!(matches!(
        Action::from(ipc::Action::FocusWorkspace { reference: WorkspaceReferenceArg::Id(4) }),
        Action::FocusWorkspace(WorkspaceReference::Id(4))
    ));
}

#[test]
fn appearance_sections_add_up() {
    let mut layout = Layout::default();
    let part = LayoutPart {
        focus_ring: Some(3),
        border_style: Some(4),
        tab_indicator: Some(5),
        insert_hint: Some(6),
        background_color: Some(7),
        ..LayoutPart::default()
    };
    layout.merge_with(&part);
    layout.merge_with(&part);
    layout.merge_with(&LayoutPart::default());
    let other = LayoutPart { focus_ring: Some(8), ..LayoutPart::default() };
    assert!(!part.same(&other));
    layout.merge_with(&other);
    assert_eq!(layout.focus_ring, vec![3, 8]);
    assert_eq!(layout.border_style, vec![4]);
    assert!(layout.shadow.is_empty());
    assert_eq!(layout.tab_indicator, vec![5]);
    assert_eq!(layout.insert_hint, vec![6]);
    assert_eq!(layout.background_color, Some(7));
    assert_eq!(layout.copy().focus_ring, vec![3, 8]);
}

#[test]
fn a_window_rule_says_nothing_by_itself() {
    let rule = WindowRule::default();
    assert!(rule.matches.is_empty());
    assert!(rule.excludes.is_empty());
    assert!(rule.open_floating.is_none());
    assert!(rule.opacity.is_none());
    assert!(rule.popups.is_none());
}

#[test]
fn parse_media_player_layout() {
    let mut config = Config::default();
    let part = LayoutPart {
        media_player_app_ids: Some(MediaPlayerAppIds(vec![
            "mpv".to_owned(),
            "org.videolan.VLC".to_owned(),
        ])),
        media_player_column_width: Some(DefaultPresetSize(Some(proportion(0.25)))),
        media_player_ultrawide_column_width: Some(DefaultPresetSize(Some(proportion(0.15)))),
        media_player_open_in_fixed_side: Some(MediaPlayerFixedSide::from_str("right").unwrap()),
        ..LayoutPart::default()
    };
    config.apply(SectionPart::Layout(part), 0, &mut false);
    assert_eq!(
        config.layout.media_player_app_ids,
        vec!["mpv".to_owned(), "org.videolan.VLC".to_owned()]
    );
    assert_eq!(config.layout.media_player_column_width, proportion(0.25));
    assert_eq!(config.layout.media_player_ultrawide_column_width, proportion(0.15));
    assert_eq!(config.layout.media_player_open_in_fixed_side, Some(OpenInFixedSide::Right));
}

#[test]
fn media_player_fixed_side_none_disables_routing() {
    let mut config = Config::default();
    let part = LayoutPart {
        media_player_open_in_fixed_side: Some(MediaPlayerFixedSide::from_str("none").unwrap()),
        ..LayoutPart::default()
    };
    config.apply(SectionPart::Layout(part), 0, &mut false);
    assert_eq!(config.layout.media_player_open_in_fixed_side, None);
}

#[test]
fn media_player_defaults() {
    let config = Config::default();
    assert!(config.layout.media_player_app_ids.is_empty());
    assert_eq!(config.layout.media_player_column_width, proportion(1. / 3.));
    assert_eq!(config.layout.media_player_ultrawide_column_width, proportion(1. / 5.));
    assert_eq!(config.layout.media_player_open_in_fixed_side, Some(OpenInFixedSide::Left));
}

#[test]
fn fixed_side_names() {
    assert_eq!(
        MediaPlayerFixedSide::from_str("left").unwrap().to_option(),
        Some(OpenInFixedSide::Left),
    );
    assert_eq!(MediaPlayerFixedSide::from_str("off").unwrap().to_option(), None);
    assert_eq!(
        MediaPlayerFixedSide::from_str("Left"),
        Err("invalid media-player fixed side, can be \"left\", \"right\", or \"none\""),
    );
}

#[test]
fn layout_defaults_are_exact() {
    let layout = Layout::default();
    let presets = vec![proportion(1. / 3.), proportion(0.5), proportion(2. / 3.)];
    assert_eq!(layout.preset_column_widths, presets);
    assert_eq!(layout.preset_window_heights, presets);
    assert_eq!(layout.default_column_width, Some(proportion(0.5)));
    assert_eq!(layout.gaps, Number::Int(16));
    assert_eq!(layout.ultrawide_default_column_width, proportion(1. / 3.));
    assert_eq!(layout.ultrawide_terminal_column_width, proportion(1. / 5.));
    assert_eq!(layout.center_focused_column, CenterFocusedColumn::Never);
    assert_eq!(layout.default_column_display, ColumnDisplay::Normal);
    assert_eq!(layout.struts, Struts::default());
    assert!(layout.border.off);
    assert!(!layout.disable_carousel);
}

#[test]
fn layout_parts_are_merged() {
    let mut layout = Layout::default();
    let part = LayoutPart {
        preset_column_widths: Some(vec![]),
        preset_window_heights: Some(vec![PresetSize::Fixed(300)]),
        default_column_width: Some(DefaultPresetSize(None)),
        disable_carousel: Some(Flag(true)),
        gaps: Some(FloatOrInt(Number::Int(4))),
        terminal_app_ids: Some(TerminalAppIds(vec!["foot".into()])),
        ultrawide_default_column_width: Some(DefaultPresetSize(None)),
        ..LayoutPart::default()
    };
    layout.merge_with(&part);
    // An empty list falls back to the usual sizes.
    assert_eq!(layout.preset_column_widths.len(), 3);
    assert_eq!(layout.preset_window_heights, vec![PresetSize::Fixed(300)]);
    assert_eq!(layout.default_column_width, None);
    assert!(layout.disable_carousel);
    assert_eq!(layout.gaps, Number::Int(4));
    assert_eq!(layout.terminal_app_ids, vec!["foot"]);
    // A width of these can't be unset.
    assert_eq!(layout.ultrawide_default_column_width, proportion(1. / 3.));
    // Once more changes nothing.
    layout.merge_with(&part);
    assert_eq!(layout.preset_window_heights, vec![PresetSize::Fixed(300)]);
    assert_eq!(layout.gaps, Number::Int(4));
    assert!(layout.copy().disable_carousel);
}

#[test]
fn border_section_turns_borders_on_in_the_first_file_only() {
    let border = |on, off| LayoutPart {
        border: Some(BorderRule { on, off }),
        ..LayoutPart::default()
    };
    let mut config = Config::default();
    config.apply(SectionPart::Layout(border(false, false)), 1, &mut false);
    assert!(config.layout.border.off);
    config.apply(SectionPart::Layout(border(false, false)), 0, &mut false);
    assert!(!config.layout.border.off);
    config.apply(SectionPart::Layout(border(false, true)), 0, &mut false);
    assert!(config.layout.border.off);
    config.apply(SectionPart::Layout(LayoutPart::default()), 0, &mut false);
    assert!(config.layout.border.off);
}

#[test]
fn sections_are_put_into_effect() {
    let mut config = Config::default();
    let mut saw = false;
    config.apply(SectionPart::PreferNoCsd(Flag(true)), 0, &mut saw);
    config.apply(SectionPart::EnableStacking(Flag(true)), 0, &mut saw);
    config.apply(SectionPart::StackingMoveOverlapFirst(Flag(true)), 0, &mut saw);
    config.apply(SectionPart::Binds(Binds(vec![bind(1, Action::Suspend)])), 0, &mut saw);
    config.apply(SectionPart::Other { section: Section::Cursor, part: 5 }, 0, &mut saw);
    assert!(config.prefer_no_csd && config.enable_stacking && config.stacking_move_overlap_first);
    assert_eq!(config.binds.0.len(), 1);
    // Only the first binds for recent windows clear the built-in ones.
    config.apply(SectionPart::RecentWindows { part: 6, has_binds: false }, 0, &mut saw);
    assert!(!saw);
    config.apply(SectionPart::RecentWindows { part: 7, has_binds: true }, 0, &mut saw);
    config.apply(SectionPart::RecentWindows { part: 8, has_binds: true }, 1, &mut saw);
    assert!(saw);
    let parts: Vec<(u64, bool)> =
        config.other.iter().map(|p| (p.part, p.clears_default_binds)).collect();
    assert_eq!(parts, vec![(5, false), (6, false), (7, true), (8, false)]);
}

#[test]
fn sections_may_not_repeat_in_a_file() {
    let mut file = ConfigPart::new(path("/etc/c.kdl"));
    let mut errors = Vec::new();
    assert_eq!(file.next_node(&"layout".to_owned(), &mut errors), Some(Section::Layout));
    assert_eq!(file.next_node(&"output".to_owned(), &mut errors), Some(Section::Output));
    assert_eq!(file.next_node(&"output".to_owned(), &mut errors), Some(Section::Output));
    assert!(errors.is_empty());
    assert_eq!(file.next_node(&"layout".to_owned(), &mut errors), None);
    assert!(matches!(&errors[0], DecodeError::DuplicateNode { name } if name == "layout"));
    assert_eq!(file.next_node(&"nonsense".to_owned(), &mut errors), None);
    assert!(matches!(&errors[1], DecodeError::Node { name } if name == "nonsense"));
    assert_eq!(file.next_node(&"nonsense".to_owned(), &mut errors), None);
    assert!(matches!(&errors[2], DecodeError::DuplicateNode { .. }));
}

#[test]
fn every_section_is_known_by_its_name() {
    let names = [
        ("input", Section::Input),
        ("cursor", Section::Cursor),
        ("clipboard", Section::Clipboard),
        ("hotkey-overlay", Section::HotkeyOverlay),
        ("config-notification", Section::ConfigNotification),
        ("appearance", Section::Appearance),
        ("animations", Section::Animations),
        ("blur", Section::Blur),
        ("gestures", Section::Gestures),
        ("overview", Section::Overview),
        ("xwayland-satellite", Section::XwaylandSatellite),
        ("session-restore", Section::SessionRestore),
        ("switch-events", Section::SwitchEvents),
        ("debug", Section::Debug),
        ("spawn-at-startup", Section::SpawnAtStartup),
        ("spawn-sh-at-startup", Section::SpawnShAtStartup),
        ("window-rule", Section::WindowRule),
        ("layer-rule", Section::LayerRule),
        ("workspace", Section::Workspace),
        ("binds", Section::Binds),
        ("environment", Section::Environment),
        ("prefer-no-csd", Section::PreferNoCsd),
        ("enable-stacking", Section::EnableStacking),
        ("stacking-move-overlap-first", Section::StackingMoveOverlapFirst),
        ("screenshot-path", Section::ScreenshotPath),
        ("recent-windows", Section::RecentWindows),
        ("include", Section::Include),
    ];
    let mut file = ConfigPart::new(path("c"));
    let mut errors = Vec::new();
    for (name, section) in names {
        assert_eq!(file.next_node(&name.to_owned(), &mut errors), Some(section));
    }
    assert!(errors.is_empty());
}

/// A path without `.` but at its beginning.
fn path(text: &str) -> FilePath {
    FilePath {
        absolute: text.starts_with('/'),
        components: text
            .split('/')
            .filter(|c| !c.is_empty())
            .map(|c| c.as_bytes().to_vec())
            .collect(),
    }
}

fn text_of(path: &FilePath) -> String {
    let parts: Vec<&str> =
        path.components.iter().map(|c| std::str::from_utf8(c).unwrap()).collect();
    format!("{}{}", if path.absolute { "/" } else { "" }, parts.join("/"))
}

#[test]
fn paths_are_joined() {
    let join = |a: &str, b: &str| text_of(&path(a).join(&path(b)));
    assert_eq!(join("/a", "b/c"), "/a/b/c");
    assert_eq!(join("/a", "/b"), "/b");
    assert_eq!(join("/a", "./b"), "/a/b");
    assert_eq!(join("/", "./b"), "/b");
    assert_eq!(join("", "./b"), "./b");
    assert_eq!(join("a", ""), "a");
    assert_eq!(join("a", "../b"), "a/../b");
    assert!(path("/a/b").same(&path("/a//b")));
    assert!(!path("/a/b").same(&path("a/b")));
    assert!(!path("/a/b").same(&path("/a/c")));
    assert_eq!(text_of(&path("/a/b").copy()), "/a/b");
}

#[test]
fn paths_are_taken_apart() {
    assert_eq!(text_of(&path("~/a").strip_home().unwrap()), "a");
    assert_eq!(text_of(&path("~").strip_home().unwrap()), "");
    assert!(path("~a").strip_home().is_none());
    assert!(path("/~").strip_home().is_none());
    assert!(path("").strip_home().is_none());
    assert_eq!(text_of(&path("/a/b").directory()), "/a");
    assert_eq!(text_of(&path("a").directory()), "");
    assert_eq!(text_of(&path("/").directory()), "");
    assert!(path("/a/b.kdl").names_file());
    assert!(!path("/a/..").names_file());
    assert!(!path(".").names_file());
    assert!(!path("/").names_file());
    let not_text = FilePath { absolute: false, components: vec![vec![0xff]] };
    assert!(!not_text.names_file());
}

#[test]
fn files_are_taken_in_up_to_a_depth() {
    let mut includes = Vec::new();
    let mut errors = Vec::new();
    let mut file = ConfigPart::new(path("/etc/0"));
    for i in 1..10 {
        file = file
            .begin_include(&path(&format!("{i}")), &None, &mut includes, &mut errors)
            .unwrap();
        assert_eq!(file.depth(), i);
    }
    assert!(errors.is_empty());
    assert_eq!(includes.len(), 9);
    assert_eq!(text_of(&includes[8]), "/etc/9");
    assert!(file.begin_include(&path("10"), &None, &mut includes, &mut errors).is_none());
    assert!(matches!(errors[..], [DecodeError::RecursionLimit]));
    assert_eq!(includes.len(), 9);
}

#[test]
fn files_that_are_not_taken_in_are_reported() {
    let mut includes = Vec::new();
    let mut errors = Vec::new();
    let home = Some(path("/home/u"));
    let file = ConfigPart::new(path("/etc/a"));
    let nested = file.begin_include(&path("d/b"), &home, &mut includes, &mut errors).unwrap();
    // Seen from the directory of the nested file.
    assert!(nested.begin_include(&path("/etc/a"), &home, &mut includes, &mut errors).is_none());
    assert!(matches!(errors[0], DecodeError::RecursiveInclude));
    assert!(file.begin_include(&path("~/x"), &None, &mut includes, &mut errors).is_none());
    assert!(matches!(errors[1], DecodeError::NoHome));
    assert!(file.begin_include(&path(".."), &home, &mut includes, &mut errors).is_none());
    assert!(matches!(errors[2], DecodeError::NoFileName));
    assert!(file.begin_include(&path("~/x"), &home, &mut includes, &mut errors).is_some());
    // The same file can be taken in twice side by side.
    assert!(file.begin_include(&path("./d/b"), &home, &mut includes, &mut errors).is_some());
    let taken: Vec<String> = includes.iter().map(text_of).collect();
    assert_eq!(taken, vec!["/etc/d/b", "/home/u/x", "/etc/d/b"]);
    assert_eq!(errors.len(), 3);
}

#[test]
fn include_nodes_are_read() {
    let mut errors = Vec::new();
    let mut n = node("include");
    assert!(matches!(
        parse_include(&n, &mut errors),
        Err(DecodeError::MissingArgument { name }) if name == "path"
    ));
    n.arguments.push(value(Literal::String("x.kdl".into())));
    n.properties.push(("optional".into(), value(Literal::Bool(true))));
    let file = parse_include(&n, &mut errors).unwrap();
    assert_eq!(file.path, "x.kdl");
    assert!(file.optional);
    assert!(errors.is_empty());
    n.arguments.push(value(Literal::Null));
    n.properties.push(("other".into(), value(Literal::Null)));
    n.children.push(node("child"));
    n.arguments[0] = value(Literal::Bool(true));
    let file = parse_include(&n, &mut errors).unwrap();
    assert_eq!(file.path, "");
    assert!(matches!(errors[0], DecodeError::Kind(Kind::String)));
    assert!(matches!(errors[1], DecodeError::Argument));
    assert!(matches!(&errors[2], DecodeError::Property { name } if name == "other"));
    assert!(matches!(&errors[3], DecodeError::Node { name } if name == "child"));
    assert_eq!(errors.len(), 4);
}

#[test]
fn only_optional_files_may_be_missing() {
    let mut errors = Vec::new();
    end_include(true, IncludeOutcome::NotFound(1), &mut errors);
    end_include(false, IncludeOutcome::Decoded, &mut errors);
    assert!(errors.is_empty());
    end_include(false, IncludeOutcome::NotFound(1), &mut errors);
    end_include(true, IncludeOutcome::NotRead(2), &mut errors);
    end_include(true, IncludeOutcome::NotDecoded, &mut errors);
    assert!(matches!(errors[0], DecodeError::IncludeNotRead(1)));
    assert!(matches!(errors[1], DecodeError::IncludeNotRead(2)));
    assert!(matches!(errors[2], DecodeError::IncludeNotParsed));
}

#[test]
fn a_config_with_errors_is_no_config() {
    assert!(Config::default().finish(Vec::new(), None).is_ok());
    let errors = Config::default().finish(vec![DecodeError::Argument], None).unwrap_err();
    assert_eq!(errors.len(), 1);
    let errors = Config::default()
        .finish(vec![DecodeError::Argument], Some(DecodeError::Section(3)))
        .unwrap_err();
    assert!(matches!(errors[1], DecodeError::Section(3)));
}

#[test]
fn arguments_of_nodes() {
    let mut n = node("n");
    assert!(matches!(
        parse_arg_node("width", &n),
        Err(DecodeError::MissingArgument { name }) if name == "width"
    ));
    n.arguments.push(value(Literal::Int(Some(3))));
    let (v, errors) = parse_arg_node("width", &n).unwrap();
    assert!(matches!(v.literal, Literal::Int(Some(3))));
    assert!(errors.is_empty());
    n.arguments.push(value(Literal::Null));
    n.arguments.push(value(Literal::Null));
    let (_, errors) = parse_arg_node("width", &n).unwrap();
    assert!(matches!(errors[..], [DecodeError::Argument]));
}

#[test]
fn snapshot_is_next_to_the_file() {
    assert_eq!(snapshot_path_for(b"/home/u/config.kdl"), b"/home/u/config.kdl.last-good".to_vec());
    let path = ConfigPath::Regular {
        user_path: b"/u/c".to_vec(),
        system_path: b"/etc/c".to_vec(),
    };
    assert_eq!(path.user_path(), Some(&b"/u/c".to_vec()));
    assert_eq!(path.last_good_path(), Some(b"/u/c.last-good".to_vec()));
    let path = ConfigPath::Explicit(b"x".to_vec());
    assert_eq!(path.last_good_path(), Some(b"x.last-good".to_vec()));
}

#[test]
fn snapshot_is_saved_in_one_step_at_the_end() {
    let steps = save_last_good(b"/u/c.kdl");
    let temp = b"/u/.c.kdl.last-good.tmp".to_vec();
    assert!(matches!(&steps[0], SnapshotStep::RemoveStale(p) if *p == temp));
    assert!(matches!(&steps[1], SnapshotStep::Copy { from, to }
        if from == b"/u/c.kdl" && *to == temp));
    assert!(matches!(&steps[2], SnapshotStep::Rename { from, to }
        if *from == temp && to == b"/u/c.kdl.last-good"));
    assert_eq!(steps.len(), 3);
    let steps = save_last_good(b"\xff");
    assert!(matches!(&steps[0], SnapshotStep::RemoveStale(p)
        if p == b".config.kdl.last-good.tmp"));
}

#[test]
fn config_file_is_chosen() {
    let path = ConfigPath::Regular {
        user_path: b"u".to_vec(),
        system_path: b"s".to_vec(),
    };
    assert!(matches!(path.load_inner(true, true), ConfigChoice::Load(p) if p == b"u"));
    assert!(matches!(path.load_inner(false, true), ConfigChoice::Load(p) if p == b"s"));
    assert!(matches!(path.load_inner(false, false),
        ConfigChoice::Missing { user_path, system_path }
            if user_path == b"u" && system_path == b"s"));
    let explicit = ConfigPath::Explicit(b"x".to_vec());
    assert!(matches!(explicit.load_inner(false, false), ConfigChoice::Load(p) if p == b"x"));
}

fn result(
    config: Result<u8, &'static str>,
    includes: &[&str],
) -> ConfigParseResult<u8, &'static str> {
    ConfigParseResult {
        config,
        includes: includes.iter().map(|i| i.as_bytes().to_vec()).collect(),
    }
}

#[test]
fn there_is_always_a_config() {
    let path = ConfigPath::Explicit(b"c".to_vec());
    let made = Some(b"c".to_vec());
    let good = load_chain(&path, made.clone(), result(Ok(1), &["a"]), None, 3);
    assert_eq!((good.config, good.source), (1, ConfigSource::User));
    assert_eq!(good.user_load_error, None);
    assert_eq!(good.created_path, made);
    assert_eq!(good.includes, vec![b"a".to_vec()]);
    let last = load_chain(&path, None, result(Err("bad"), &["a"]), Some(result(Ok(2), &["b"])), 3);
    assert_eq!((last.config, last.source), (2, ConfigSource::LastGood));
    assert_eq!(last.user_load_error, Some("bad"));
    assert!(last.includes.is_empty());
    let builtin = load_chain(
        &path,
        None,
        result(Err("bad"), &["a"]),
        Some(result(Err("x"), &[])),
        3,
    );
    assert_eq!((builtin.config, builtin.source), (3, ConfigSource::BuiltinDefaults));
    assert_eq!(builtin.user_load_error, Some("bad"));
    assert!(builtin.includes.is_empty());
    let none = load_chain(&path, None, result(Err("bad"), &["a"]), None, 3);
    assert_eq!(none.source, ConfigSource::BuiltinDefaults);
}

#[test]
fn percentages_are_taken_apart() {
    assert_eq!(Percent::from_str("12.5%").unwrap().number, "12.5");
    assert_eq!(Percent::from_str("12").unwrap_err(), PercentError::MissingSign);
    assert_eq!(Percent::from_str("12%%").unwrap_err(), PercentError::TrailingCharacters);
    assert_eq!(Percent::from_str("%").unwrap().number, "");
}

#[test]
fn numbers_are_read_within_bounds() {
    let mut errors = Vec::new();
    let read = |v: Literal, within: bool, errors: &mut Vec<NumberError>| {
        FloatOrInt::raw_decode(&v, -5, 5, within, errors).0
    };
    assert_eq!(read(Literal::Int(Some(-5)), false, &mut errors), Number::Int(-5));
    let half = 0.5f64.to_bits();
    assert_eq!(read(Literal::Decimal(Some(half)), true, &mut errors), Number::Decimal(half));
    assert!(errors.is_empty());
    assert_eq!(read(Literal::Int(Some(6)), true, &mut errors), Number::Int(0));
    assert_eq!(read(Literal::Decimal(Some(half)), false, &mut errors), Number::Int(0));
    assert_eq!(read(Literal::Int(Some(1 << 40)), true, &mut errors), Number::Int(0));
    assert_eq!(read(Literal::Int(None), true, &mut errors), Number::Int(0));
    assert_eq!(read(Literal::Bool(true), true, &mut errors), Number::Int(0));
    let range = NumberError::OutOfRange { min: -5, max: 5 };
    assert_eq!(
        errors,
        vec![
            range,
            range,
            NumberError::Conversion,
            NumberError::Conversion,
            NumberError::Unsupported,
        ],
    );
}

#[test]
fn popup_rules_are_merged_in_order() {
    let mut rules = ResolvedPopupsRules::default();
    let radius = CornerRadius { top_left: 1, top_right: 2, bottom_right: 3, bottom_left: 4 };
    rules.merge_with(&PopupsRule {
        opacity: Some(0.5f32.to_bits()),
        geometry_corner_radius: None,
        background_effect: 1,
    });
    rules.merge_with(&PopupsRule {
        opacity: None,
        geometry_corner_radius: Some(radius),
        background_effect: 2,
    });
    assert_eq!(rules.opacity, Some(0.5f32.to_bits()));
    assert_eq!(rules.geometry_corner_radius, Some(radius));
    assert_eq!(rules.background_effects, vec![1, 2]);
    assert_eq!(RelativeTo::default(), RelativeTo::TopLeft);
}

#[test]
fn flags_and_numbers_replace() {
    let mut b = false;
    b.merge_with(&Flag(true));
    assert!(b);
    let mut n = Number::Int(1);
    n.merge_with(&FloatOrInt(Number::Int(2)));
    assert_eq!(n, Number::Int(2));
    assert_eq!(FloatOrInt::default(), FloatOrInt(Number::Int(0)));
}

#[test]
fn workspaces_are_referred_to_by_name_or_index() {
    let mut errors = Vec::new();
    let name = WorkspaceReference::raw_decode(&Literal::String("web".into()), &mut errors);
    assert!(matches!(name, WorkspaceReference::Name(n) if n == "web"));
    let index = WorkspaceReference::raw_decode(&Literal::Int(Some(255)), &mut errors);
    assert!(matches!(index, WorkspaceReference::Index(255)));
    assert!(errors.is_empty());
    let below = Literal::Int(Some(-1));
    for bad in [Literal::Int(Some(256)), below, Literal::Int(None), Literal::Null] {
        let r = WorkspaceReference::raw_decode(&bad, &mut errors);
        assert!(matches!(r, WorkspaceReference::Index(0)));
    }
    assert!(matches!(
        errors[..],
        [
            DecodeError::Conversion,
            DecodeError::Conversion,
            DecodeError::Conversion,
            DecodeError::Unsupported
        ]
    ));
    errors.clear();
    WorkspaceReference::type_check(&None, &mut errors);
    FloatOrInt::type_check(&None, &mut errors);
    assert!(errors.is_empty());
    WorkspaceReference::type_check(&Some("u8".into()), &mut errors);
    FloatOrInt::type_check(&Some("f64".into()), &mut errors);
    assert!(matches!(errors[..], [DecodeError::TypeName, DecodeError::TypeName]));
}

#[test]
fn default_sizes_have_one_child_at_most() {
    let mut errors = Vec::new();
    let mut n = node("default-column-width");
    let none = DefaultPresetSize::decode_node(&n, None, &mut errors).unwrap();
    assert_eq!(none, DefaultPresetSize(None));
    n.children.push(node("fixed"));
    let size = PresetSize::Fixed(3);
    let one = DefaultPresetSize::decode_node(&n, Some(Ok(size)), &mut errors).unwrap();
    assert_eq!(one, DefaultPresetSize(Some(size)));
    assert!(errors.is_empty());
    n.children.push(node("extra"));
    n.children.push(node("more"));
    let failed = Some(Err(DecodeError::Conversion));
    let r = DefaultPresetSize::decode_node(&n, failed, &mut errors);
    assert!(matches!(r, Err(DecodeError::Conversion)));
    assert!(matches!(&errors[..], [DecodeError::Node { name }] if name == "extra"));
}
