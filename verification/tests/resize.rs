use hyprfloat::args::ResizeactiveArgs;
use hyprfloat::data::monitor_data;
use hyprfloat::resize::{count_move_resize, get_resize, plan_resize, resize_config, ResizePlan, ResizeRequest};
use hyprfloat::structs::{
    empty_parameters, Axis, ClientAxisData, Config, ConfigAxisData, FromClient, Paddings, PerAxis,
    Session, TagSet,
};
use hyprfloat::tags::tag_window;

fn config(detect_padding: bool, stick: bool, standard: bool, invert: bool) -> Config {
    Config {
        axis_data: PerAxis {
            x: ConfigAxisData { padding_min: 0, padding_max: 0, default_size: 800, margin: 0 },
            y: ConfigAxisData { padding_min: 0, padding_max: 0, default_size: 600, margin: 0 },
        },
        detect_padding,
        detect_bars: false,
        standard_resize: standard,
        stick_to_borders: stick,
        invert_resize_in_stick_mode: invert,
        resize_through_borders: false,
        toggle_to_open_size: false,
    }
}

fn session(conf: Config, x: (i16, i16), floating: bool) -> Session {
    Session {
        config: conf,
        layers: PerAxis {
            x: Paddings { padding_min: 0, padding_max: 0 },
            y: Paddings { padding_min: 0, padding_max: 0 },
        },
        monitor: monitor_data(0, 0, 1920, 1080, String::from("DP-1")),
        client: FromClient {
            axis_data: PerAxis {
                x: ClientAxisData { window_pos: x.0, window_size: x.1, cursor_pos: 0 },
                y: ClientAxisData { window_pos: 100, window_size: 300, cursor_pos: 0 },
            },
            tags: Vec::new(),
            address: String::from("0x1"),
            class: String::from("kitty"),
            monitor: String::from("DP-1"),
            floating,
            fullscreen: false,
        },
        params: empty_parameters(),
    }
}

fn request(resize: i16, exact: bool) -> ResizeRequest {
    ResizeRequest {
        axis: Axis::X,
        resize,
        minimal_size: 0,
        exact,
        tags: TagSet { min: false, max: false, no_stick: false },
    }
}

#[test]
fn plain_resize_keeps_the_position() {
    let s = session(config(false, false, true, false), (100, 400), true);
    let r = count_move_resize(&s, &request(100, false));
    assert_eq!(r.geometry, Some((100, 500)));
    assert!(r.tags.is_empty());
}

#[test]
fn centred_resize_grows_on_both_sides() {
    let s = session(config(false, false, false, false), (100, 400), true);
    assert_eq!(count_move_resize(&s, &request(100, false)).geometry, Some((50, 500)));
    assert_eq!(count_move_resize(&s, &request(101, false)).geometry, Some((50, 501)));
}

#[test]
fn shrinking_stops_at_the_minimal_size() {
    let s = session(config(false, false, true, false), (100, 30), true);
    assert_eq!(count_move_resize(&s, &request(-50, false)).geometry, Some((100, 20)));
    let mut q = request(-500, false);
    q.minimal_size = 250;
    let big = session(config(false, false, true, false), (100, 400), true);
    assert_eq!(count_move_resize(&big, &q).geometry, Some((100, 250)));
}

#[test]
fn growing_stops_at_the_working_area() {
    let s = session(config(true, false, true, false), (100, 1800), true);
    let r = count_move_resize(&s, &request(500, false));
    assert_eq!(r.geometry, Some((0, 1920)));
    assert!(r.tags.is_empty());
}

#[test]
fn exact_size_is_reached() {
    let s = session(config(true, true, true, false), (100, 400), true);
    let resize = get_resize(&s.client, true, Axis::X, 600);
    assert_eq!(resize, 200);
    let r = count_move_resize(&s, &request(resize, true));
    assert_eq!(r.geometry, Some((100, 600)));
}

#[test]
fn a_window_at_the_low_border_sticks_to_it() {
    let s = session(config(true, true, true, false), (0, 400), true);
    let r = count_move_resize(&s, &request(100, false));
    assert_eq!(r.geometry, Some((0, 500)));
    let tags: Vec<String> = r.tags.iter().map(|c| tag_window(c)).collect();
    assert_eq!(tags, vec!["-x_no_stick", "+x_min", "-x_max"]);
}

#[test]
fn growing_a_window_stuck_high_is_turned_round() {
    let s = session(config(true, true, true, true), (1520, 400), true);
    let r = count_move_resize(&s, &request(100, false));
    assert_eq!(r.geometry, Some((1620, 300)));
    let tags: Vec<String> = r.tags.iter().map(|c| tag_window(c)).collect();
    assert_eq!(tags, vec!["-x_no_stick", "-x_min", "+x_max"]);
}

#[test]
fn get_resize_without_exact_is_the_change() {
    let s = session(config(false, false, true, false), (100, 400), true);
    assert_eq!(get_resize(&s.client, false, Axis::X, -30), -30);
    assert_eq!(get_resize(&s.client, true, Axis::Y, 250), -50);
}

#[test]
fn tiled_windows_are_resized_by_delta() {
    let s = session(config(true, true, true, false), (100, 400), false);
    let (plan, tags) = plan_resize(&s, false, (10, -20), (0, 0));
    assert!(matches!(plan, ResizePlan::Delta(10, -20)));
    assert!(tags.is_empty());
}

#[test]
fn floating_windows_are_moved_and_sized() {
    let s = session(config(false, false, true, false), (100, 400), true);
    let (plan, tags) = plan_resize(&s, false, (100, 50), (0, 0));
    match plan {
        ResizePlan::Exact { position, size } => {
            assert_eq!(position, (100, 100));
            assert_eq!(size, (500, 350));
        },
        other => panic!("unexpected plan {:?}", other),
    }
    assert!(tags.is_empty());
}

#[test]
fn resize_options_change_the_configuration() {
    let mut conf = config(true, true, true, true);
    let args = ResizeactiveArgs {
        resize_x: String::from("600"),
        resize_y: String::from("400"),
        force: true,
        no_invert: false,
        exact: true,
    };
    assert!(resize_config(&args, &mut conf));
    assert!(!conf.invert_resize_in_stick_mode);
    assert!(conf.resize_through_borders);
    assert!(!conf.detect_padding);
    let mut conf2 = config(true, true, true, true);
    let args2 = ResizeactiveArgs { force: false, exact: false, ..args };
    assert!(!resize_config(&args2, &mut conf2));
    assert!(conf2.invert_resize_in_stick_mode);
    assert!(!conf2.resize_through_borders);
    assert!(conf2.detect_padding);
}

#[test]
fn sizes_past_the_coordinate_range_are_refused() {
    let s = session(config(false, false, true, false), (100, 32000), true);
    assert_eq!(count_move_resize(&s, &request(32000, false)).geometry, None);
    let (plan, _) = plan_resize(&s, false, (32000, 0), (0, 0));
    assert!(matches!(plan, ResizePlan::OutOfRange));
}
