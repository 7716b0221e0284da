use hyprfloat::args::{
    daemon_args, direction_from_name, exec_args, movewindow_args, position_from_name, position_or_any,
    resizeactive_args, togglefloating_args, Direction, ExecArgs, Modes, MovewindowArgs,
    TogglefloatingArgs,
};
use hyprfloat::cache::{
    class_of_binary, get_size_data_by_class, write_class_data_into_cache, ClassCache, Keyed,
    SizeCache,
};
use hyprfloat::data::{client_data, config_changed, initial_stamp, monitor_data, ConfigStamp, WindowReport};
use hyprfloat::movewindow::{detect_dir, get_direction, movewindow_parameters, parse_direction, MoveCommand};
use hyprfloat::open::{
    class_for_request, compare_size_parameters, define_parameters, exec_rule, get_class_from_request, get_origin_size,
    get_parameter, minimal_size_for_class, move_rule, predefine_size_by_class,
    predefines_before_open, size_rule, sizes_before_open, Predefined, SizeKey,
};
use hyprfloat::structs::{
    empty_parameters, Axis, Binary, ClassSize, Config, ConfigAxisData, CountSystem, FromClient,
    Paddings, PerAxis, PositionArg, RuleValue, Session, SizeParams, SizeValue, WindowsConfig,
};
use hyprfloat::tags::tag_window;
use hyprfloat::toggle::{
    change_window_state, poll_found, records_after_open, records_before_toggle, size_source,
    stops_when_tiled, toggles_floating, togglefloating_parameters, use_default_size,
    use_origin_size, use_predefined_size, SizeSource,
};

fn config() -> Config {
    Config {
        axis_data: PerAxis {
            x: ConfigAxisData { padding_min: 0, padding_max: 0, default_size: 800, margin: 0 },
            y: ConfigAxisData { padding_min: 0, padding_max: 0, default_size: 600, margin: 0 },
        },
        detect_padding: true,
        detect_bars: false,
        standard_resize: true,
        stick_to_borders: true,
        invert_resize_in_stick_mode: false,
        resize_through_borders: false,
        toggle_to_open_size: false,
    }
}

fn window(size: (i16, i16), floating: bool) -> FromClient {
    client_data(
        WindowReport {
            at: (100, 50),
            size,
            tags: Vec::new(),
            address: String::from("0xabc"),
            class: String::from("kitty"),
            monitor: String::from("DP-1"),
            floating,
            fullscreen: false,
        },
        (1000, 500),
    )
}

fn session(binary: Binary, count_system: CountSystem) -> Session {
    let mut params = empty_parameters();
    params.binary = binary;
    params.count_system = count_system;
    Session {
        config: config(),
        layers: PerAxis {
            x: Paddings { padding_min: 10, padding_max: 20 },
            y: Paddings { padding_min: 30, padding_max: 40 },
        },
        monitor: monitor_data(0, 0, 1920, 1080, String::from("DP-1")),
        client: window((400, 300), true),
        params,
    }
}

fn exec(size: Vec<String>, at: Vec<i16>, position: &str) -> ExecArgs {
    ExecArgs {
        executable: String::from("kitty --class term"),
        force: true,
        default_size: false,
        origin_size: false,
        tile: false,
        size,
        at,
        position: String::from(position),
    }
}

fn windows() -> WindowsConfig {
    let mut kitty = Keyed::new();
    kitty.insert(
        String::from("monitor_DP-1"),
        RuleValue::Pair(SizeValue::Integer(800), SizeValue::Text(String::from("50%"))),
    );
    kitty.insert(
        String::from("minimal_size"),
        RuleValue::Pair(SizeValue::Integer(300), SizeValue::Integer(200)),
    );
    let mut any = Keyed::new();
    any.insert(
        String::from("monitor_any"),
        RuleValue::Pair(SizeValue::Integer(500), SizeValue::Integer(400)),
    );
    any.insert(String::from("minimal_size"), RuleValue::NotPair);
    let mut w: WindowsConfig = Keyed::new();
    w.insert(String::from("kitty"), Some(kitty));
    w.insert(String::from("foot"), Some(any));
    w.insert(String::from("broken"), None);
    w
}

#[test]
fn exec_parameters_follow_the_options() {
    let mut conf = config();
    let args = exec(vec![String::from("800"), String::from("600")], vec![10, 20], "center");
    let p = define_parameters(&args, &mut conf, Some((800, 600)));
    assert_eq!(p.binary, Binary::Open);
    assert_eq!(p.position, PositionArg::Center);
    assert!(p.size_from_args);
    assert!(!p.origin_size);
    let size = p.size.unwrap();
    assert_eq!((size.x, size.y, size.origin_x), (Some(800), Some(600), None));
    let at = p.at.unwrap();
    assert_eq!((at.x, at.y), (10, 20));
    assert!(!conf.detect_padding);
    let mut conf2 = config();
    let mut args2 = exec(Vec::new(), Vec::new(), "tl");
    args2.force = false;
    args2.default_size = true;
    let p2 = define_parameters(&args2, &mut conf2, None);
    assert!(p2.origin_size && p2.default_size && !p2.size_from_args);
    assert!(p2.size.is_none() && p2.at.is_none());
    assert_eq!(p2.position, PositionArg::TopLeft);
    assert!(conf2.detect_padding);
}

#[test]
fn class_is_read_after_the_program() {
    let r = get_class_from_request(&vec![String::from("kitty --title x --class term -e fish")]);
    assert_eq!(r.binary, "kitty");
    assert_eq!(r.class.as_deref(), Some("term"));
    let r = get_class_from_request(&vec![String::from("foot --app-id a --class b")]);
    assert_eq!(r.class.as_deref(), Some("a"));
    let r = get_class_from_request(&vec![String::from("x"), String::from("firefox")]);
    assert_eq!(r.binary, "firefox");
    assert!(r.class.is_none());
}

#[test]
fn class_sizes_come_from_the_configuration() {
    let s = session(Binary::Open, CountSystem::Origin);
    let w = windows();
    match predefine_size_by_class(&s, &w, "kitty") {
        Predefined::Config(SizeValue::Integer(800), SizeValue::Text(t)) => assert_eq!(t, "50%"),
        other => panic!("unexpected {:?}", other),
    }
    assert!(matches!(
        predefine_size_by_class(&s, &w, "foot"),
        Predefined::Config(SizeValue::Integer(500), SizeValue::Integer(400))
    ));
    assert!(matches!(predefine_size_by_class(&s, &w, "broken"), Predefined::Malformed));
    assert!(matches!(predefine_size_by_class(&s, &w, "unknown"), Predefined::Cache));
    let opened = session(Binary::Open, CountSystem::Position);
    assert!(matches!(predefine_size_by_class(&opened, &w, "unknown"), Predefined::NotFromCache));
    let toggled = session(Binary::ToggleFloating, CountSystem::Origin);
    assert!(matches!(predefine_size_by_class(&toggled, &w, "kitty"), Predefined::Cache));
}

#[test]
fn minimal_sizes_of_classes() {
    let w = windows();
    assert_eq!(minimal_size_for_class(&w, "kitty"), Some((300, 200)));
    assert_eq!(minimal_size_for_class(&w, "unknown"), Some((0, 0)));
    assert_eq!(minimal_size_for_class(&w, "broken"), None);
    assert_eq!(minimal_size_for_class(&w, "foot"), None);
}

#[test]
fn window_rules_are_written() {
    assert_eq!(size_rule(800, -6), "size 800 -6");
    assert_eq!(move_rule(&String::from("10"), &String::from("")), "move 10 ");
    assert_eq!(
        exec_rule(&String::from("move 10 20"), &String::from("size 800 600"), &String::from("kitty")),
        "[float;move 10 20;size 800 600;] kitty"
    );
    let args = exec(Vec::new(), Vec::new(), "any");
    assert!(predefines_before_open(&args));
    let mut p = empty_parameters();
    assert!(!sizes_before_open(&p, &String::new()));
    assert!(sizes_before_open(&p, &String::from("kitty")));
    p.size_from_args = true;
    assert!(!sizes_before_open(&p, &String::from("kitty")));
    p.origin_size = true;
    assert!(sizes_before_open(&p, &String::new()));
}

#[test]
fn sizes_before_and_after_opening() {
    let mut s = session(Binary::Open, CountSystem::Origin);
    assert_eq!(get_origin_size(&s.params, &s.config, Axis::X), 20);
    s.params.default_size = true;
    assert_eq!(get_origin_size(&s.params, &s.config, Axis::Y), 600);
    s.params.size = Some(SizeParams::of_origin(700, 500));
    assert_eq!(get_origin_size(&s.params, &s.config, Axis::X), 800);
    s.params.default_size = false;
    assert_eq!(get_origin_size(&s.params, &s.config, Axis::X), 700);
    assert_eq!(compare_size_parameters(&s, Axis::X), 700);
    s.params.count_system = CountSystem::Position;
    assert_eq!(compare_size_parameters(&s, Axis::X), 400);
    let mut small = session(Binary::Open, CountSystem::Position);
    small.client = window((10, 10), true);
    small.params.origin_size = true;
    assert_eq!(compare_size_parameters(&small, Axis::X), 768);
    let map = SizeParams::of_axes(1, 2);
    assert_eq!(get_parameter(SizeKey::Axis(Axis::Y), &map, 9), 2);
    assert_eq!(get_parameter(SizeKey::Origin(Axis::Y), &map, 9), 9);
}

#[test]
fn cache_remembers_classes_and_sizes() {
    let mut classes: ClassCache = Keyed::new();
    let mut sizes: SizeCache = Keyed::new();
    let mut p = empty_parameters();
    let client = window((640, 480), true);
    let changed = write_class_data_into_cache(
        &mut p,
        String::from("kitty-bin"),
        String::new(),
        &client,
        &mut classes,
        &mut sizes,
    );
    assert!(changed);
    assert!(p.origin_size);
    assert_eq!(class_of_binary(&classes, "kitty-bin"), "kitty");
    assert_eq!(class_of_binary(&classes, "foot"), "");
    assert_eq!(get_size_data_by_class(&sizes, "kitty"), Some((640, 480)));
    let mut p2 = empty_parameters();
    let bigger = window((800, 600), true);
    let changed = write_class_data_into_cache(
        &mut p2,
        String::from("kitty-bin"),
        String::from("kitty"),
        &bigger,
        &mut classes,
        &mut sizes,
    );
    assert!(!changed);
    assert!(!p2.origin_size);
    assert_eq!(get_size_data_by_class(&sizes, "kitty"), Some((800, 600)));
    assert_eq!(get_size_data_by_class(&sizes, "foot"), None);
    assert_eq!(sizes.entries().len(), 1);
    assert_eq!(classes.entries().len(), 1);
}

#[test]
fn keyed_insert_then_get() {
    let mut k: Keyed<ClassSize> = Keyed::new();
    k.insert(String::from("a"), ClassSize { size: (1, 2) });
    k.insert(String::from("b"), ClassSize { size: (3, 4) });
    k.insert(String::from("a"), ClassSize { size: (5, 6) });
    assert_eq!(k.get("a").unwrap().size, (5, 6));
    assert_eq!(k.get("b").unwrap().size, (3, 4));
    assert!(k.get("c").is_none());
    assert_eq!(k.find("b"), Some(1));
    assert_eq!(k.entries().len(), 2);
}

#[test]
fn modes_give_their_options() {
    let d = daemon_args(Modes::Daemon { config: String::from("/tmp/c.toml") });
    assert_eq!(d.config, "/tmp/c.toml");
    let e = exec_args(Modes::Exec {
        executable: String::from("kitty"),
        force: true,
        default_size: false,
        origin_size: true,
        tile: false,
        size: vec![String::from("50%")],
        at: vec![],
        position: String::from("any"),
    });
    assert!(e.force && e.origin_size);
    assert_eq!(e.size, vec!["50%"]);
    let t = togglefloating_args(Modes::Togglefloating {
        force: false,
        default_size: true,
        size: vec![800, 600],
        at: vec![1, 2],
        position: String::from("center"),
    });
    assert_eq!(t.size, vec![800, 600]);
    let r = resizeactive_args(Modes::Resizeactive {
        resize_x: String::from("10"),
        resize_y: String::from("-10"),
        force: false,
        no_invert: true,
        exact: false,
    });
    assert!(r.no_invert);
    assert_eq!(r.resize_y, "-10");
    let m = movewindow_args(Modes::Movewindow {
        force: true,
        direction: String::from("l"),
        position: String::from("any"),
    });
    assert_eq!(m.direction, "l");
}

#[test]
fn names_of_positions_and_directions() {
    assert_eq!(position_from_name("tl"), Some(PositionArg::TopLeft));
    assert_eq!(position_from_name("bottom-right"), Some(PositionArg::BottomRight));
    assert_eq!(position_from_name("opposite"), Some(PositionArg::Opposite));
    assert_eq!(position_from_name("middle"), None);
    assert_eq!(position_or_any("middle"), PositionArg::Any);
    assert_eq!(position_or_any("far"), PositionArg::Far);
    assert_eq!(direction_from_name("u"), Some(Direction::Up));
    assert_eq!(direction_from_name("up"), None);
}

#[test]
fn togglefloating_parameters_follow_the_options() {
    let mut conf = config();
    let mut p = empty_parameters();
    let args = TogglefloatingArgs {
        force: true,
        default_size: false,
        size: vec![700, 500],
        at: vec![5, 6],
        position: String::from("br"),
    };
    togglefloating_parameters(&args, &mut conf, &mut p);
    assert_eq!(p.binary, Binary::ToggleFloating);
    assert_eq!(p.position, PositionArg::BottomRight);
    assert!(p.origin_size);
    let size = p.size.unwrap();
    assert_eq!((size.x, size.y), (Some(700), Some(500)));
    assert_eq!((p.at.unwrap().x, p.at.unwrap().y), (5, 6));
    assert!(!conf.detect_padding);
}

#[test]
fn toggle_steps() {
    let mut s = session(Binary::ToggleFloating, CountSystem::Origin);
    assert!(records_before_toggle(&s));
    assert!(toggles_floating(&s));
    s.config.toggle_to_open_size = true;
    assert!(!records_before_toggle(&s));
    let mut opened = session(Binary::Open, CountSystem::Origin);
    opened.params.tile = false;
    opened.client.floating = true;
    assert!(!toggles_floating(&opened));
    opened.params.tile = true;
    assert!(toggles_floating(&opened));
    let mut p = empty_parameters();
    assert_eq!(size_source(&p), SizeSource::Predefined);
    p.size_from_args = true;
    assert_eq!(size_source(&p), SizeSource::Given);
    p.default_size = true;
    assert_eq!(size_source(&p), SizeSource::Default);
    use_default_size(&mut p, &config());
    assert_eq!(p.size.unwrap().x, Some(800));
    let mut q = empty_parameters();
    use_predefined_size(&mut q, (300, 200), true);
    assert!(q.size_from_args);
    assert_eq!(q.size.unwrap().y, Some(200));
    let mut o = empty_parameters();
    use_origin_size(&mut o, (300, 200), false);
    assert!(!o.size_from_args);
    assert_eq!(o.size.unwrap().origin_x, Some(300));
    assert!(o.size.unwrap().x.is_none());
    let mut c = empty_parameters();
    c.binary = Binary::Open;
    assert!(records_after_open(&c));
    assert!(change_window_state(&mut c));
    assert_eq!(c.count_system, CountSystem::Position);
    assert!(poll_found(Binary::Open, &String::from("0x1"), &String::from("0x2")));
    assert!(!poll_found(Binary::Open, &String::from("0x1"), &String::from("0x1")));
    assert!(poll_found(Binary::ToggleFloating, &String::from("0x1"), &String::from("0x1")));
    assert!(stops_when_tiled(&window((1, 1), false)));
}

#[test]
fn moving_to_a_border() {
    let s = session(Binary::Unset, CountSystem::Position);
    let (cmd, tags) = get_direction(&s, Direction::Right);
    assert!(matches!(cmd, MoveCommand::Exact(1500, 50)));
    let texts: Vec<String> = tags.iter().map(|c| tag_window(c)).collect();
    assert_eq!(texts, vec!["-x_no_stick", "-x_min", "+x_max"]);
    let (cmd, _) = get_direction(&s, Direction::Up);
    assert!(matches!(cmd, MoveCommand::Exact(100, 30)));
    let mut tiled = session(Binary::Unset, CountSystem::Position);
    tiled.client.floating = false;
    let (cmd, tags) = get_direction(&tiled, Direction::Left);
    assert!(matches!(cmd, MoveCommand::Direction(Direction::Left)));
    assert!(tags.is_empty());
    assert_eq!(detect_dir(Direction::Left, 5, 0, 9, Direction::Left, Direction::Right), 0);
    assert_eq!(detect_dir(Direction::Right, 5, 0, 9, Direction::Left, Direction::Right), 9);
    assert_eq!(detect_dir(Direction::Up, 5, 0, 9, Direction::Left, Direction::Right), 5);
}

#[test]
fn movewindow_options() {
    let mut conf = config();
    let mut p = empty_parameters();
    let args = MovewindowArgs { force: false, direction: String::from("d"), position: String::from("any") };
    assert!(!movewindow_parameters(&args, &mut conf, &mut p));
    assert_eq!(p.count_system, CountSystem::Origin);
    assert_eq!(parse_direction(&args), Some(Direction::Down));
    let args2 = MovewindowArgs { force: true, direction: String::new(), position: String::from("center") };
    assert!(movewindow_parameters(&args2, &mut conf, &mut p));
    assert_eq!(p.position, PositionArg::Center);
    assert_eq!(p.count_system, CountSystem::Position);
    assert!(!conf.detect_padding);
    assert_eq!(parse_direction(&args2), None);
}

#[test]
fn unknown_position_names_act_as_any() {
    let mut conf = config();
    let mut args = exec(Vec::new(), Vec::new(), "middle");
    args.force = false;
    let p = define_parameters(&args, &mut conf, None);
    assert_eq!(p.position, PositionArg::Any);
    let mut params = empty_parameters();
    let margs = MovewindowArgs { force: false, direction: String::from("l"), position: String::from("middle") };
    assert!(movewindow_parameters(&margs, &mut conf, &mut params));
    assert_eq!(params.position, PositionArg::Any);
    assert_eq!(params.count_system, CountSystem::Position);
}

#[test]
fn class_comes_from_the_request_or_the_cache() {
    let mut classes: ClassCache = Keyed::new();
    classes.insert(String::from("firefox"), String::from("org.mozilla.firefox"));
    let named = get_class_from_request(&vec![String::from("kitty --class term")]);
    assert_eq!(class_for_request(&named, &classes), "term");
    let cached = get_class_from_request(&vec![String::from("firefox")]);
    assert_eq!(class_for_request(&cached, &classes), "org.mozilla.firefox");
    let unknown = get_class_from_request(&vec![String::from("foot")]);
    assert_eq!(class_for_request(&unknown, &classes), "");
}

#[test]
fn configuration_is_read_again_on_change() {
    let first = initial_stamp();
    let read = ConfigStamp { modified_secs: 1700000000, modified_nanos: 5, monitor: 0 };
    assert!(config_changed(&first, &read));
    assert!(!config_changed(&read, &read));
    assert!(config_changed(&read, &ConfigStamp { monitor: 1, ..read }));
    assert!(config_changed(&read, &ConfigStamp { modified_nanos: 6, ..read }));
}

#[test]
fn given_and_default_sizes_are_used() {
    let mut conf = config();
    let args = exec(vec![String::from("640"), String::from("480")], Vec::new(), "any");
    let mut s = session(Binary::Open, CountSystem::Position);
    s.params = define_parameters(&args, &mut conf, Some((640, 480)));
    s.params.count_system = CountSystem::Position;
    assert_eq!(compare_size_parameters(&s, Axis::X), 640);
    assert_eq!(compare_size_parameters(&s, Axis::Y), 480);
    let mut d = session(Binary::ToggleFloating, CountSystem::Position);
    let conf2 = d.config;
    use_default_size(&mut d.params, &conf2);
    assert_eq!(compare_size_parameters(&d, Axis::X), 800);
    assert_eq!(compare_size_parameters(&d, Axis::Y), 600);
}

#[test]
fn moves_past_the_coordinate_range_are_refused() {
    let mut s = session(Binary::Unset, CountSystem::Position);
    s.monitor = monitor_data(-32768, 0, 100, 1080, String::from("DP-2"));
    s.layers.x.padding_min = -100;
    let (cmd, _) = get_direction(&s, Direction::Left);
    assert!(matches!(cmd, MoveCommand::OutOfRange));
}
