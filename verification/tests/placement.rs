use hyprfloat::data::monitor_data;
use hyprfloat::placement::{
    move_to_corner, origin_position, position, position_with_pick, window_offset, window_position,
    PositionError,
};
use hyprfloat::structs::{
    empty_parameters, Axis, Binary, ClientAxisData, Config, ConfigAxisData, CountSystem,
    FromClient, Paddings, Parameters, PerAxis, PositionArg, Session, SizeParams,
};
use hyprfloat::tags::tag_window;

fn config(detect_padding: bool, stick: bool) -> Config {
    Config {
        axis_data: PerAxis {
            x: ConfigAxisData { padding_min: 0, padding_max: 0, default_size: 800, margin: 0 },
            y: ConfigAxisData { padding_min: 0, padding_max: 0, default_size: 600, margin: 0 },
        },
        detect_padding,
        detect_bars: false,
        standard_resize: true,
        stick_to_borders: stick,
        invert_resize_in_stick_mode: false,
        resize_through_borders: false,
        toggle_to_open_size: false,
    }
}

fn client(x: ClientAxisData, y: ClientAxisData) -> FromClient {
    FromClient {
        axis_data: PerAxis { x, y },
        tags: Vec::new(),
        address: String::from("0x1"),
        class: String::from("kitty"),
        monitor: String::from("DP-1"),
        floating: true,
        fullscreen: false,
    }
}

fn plain_client() -> FromClient {
    client(
        ClientAxisData { window_pos: 100, window_size: 400, cursor_pos: 1000 },
        ClientAxisData { window_pos: 50, window_size: 300, cursor_pos: 500 },
    )
}

fn session(conf: Config, layers: PerAxis<Paddings>, c: FromClient, params: Parameters) -> Session {
    Session {
        config: conf,
        layers,
        monitor: monitor_data(0, 0, 1920, 1080, String::from("DP-1")),
        client: c,
        params,
    }
}

fn no_pads() -> PerAxis<Paddings> {
    PerAxis {
        x: Paddings { padding_min: 0, padding_max: 0 },
        y: Paddings { padding_min: 0, padding_max: 0 },
    }
}

fn pads() -> PerAxis<Paddings> {
    PerAxis {
        x: Paddings { padding_min: 10, padding_max: 20 },
        y: Paddings { padding_min: 30, padding_max: 40 },
    }
}

fn origin_params(pos: PositionArg) -> Parameters {
    let mut p = empty_parameters();
    p.binary = Binary::Open;
    p.position = pos;
    p.size = Some(SizeParams::of_axes(800, 600));
    p.size_from_args = true;
    p
}

fn position_params(pos: PositionArg) -> Parameters {
    let mut p = empty_parameters();
    p.binary = Binary::ToggleFloating;
    p.position = pos;
    p.count_system = CountSystem::Position;
    p
}

fn tag_texts(s: &Session, axis: Axis) -> Vec<String> {
    position(s, axis).tags.iter().map(|c| tag_window(c)).collect()
}

#[test]
fn center_places_window_in_the_middle() {
    let s = session(config(false, false), no_pads(), plain_client(), origin_params(PositionArg::Center));
    assert_eq!(position(&s, Axis::X).position, Ok(560));
    assert_eq!(position(&s, Axis::Y).position, Ok(240));
    assert!(position(&s, Axis::X).tags.is_empty());
}

#[test]
fn top_left_goes_to_the_paddings_and_sticks_to_min() {
    let s = session(config(true, true), pads(), plain_client(), origin_params(PositionArg::TopLeft));
    assert_eq!(position(&s, Axis::X).position, Ok(10));
    assert_eq!(position(&s, Axis::Y).position, Ok(30));
    assert_eq!(tag_texts(&s, Axis::X), vec!["-x_no_stick", "+x_min", "-x_max"]);
    assert_eq!(tag_texts(&s, Axis::Y), vec!["-y_no_stick", "+y_min", "-y_max"]);
}

#[test]
fn bottom_right_goes_against_the_far_paddings() {
    let s = session(config(true, true), pads(), plain_client(), origin_params(PositionArg::BottomRight));
    assert_eq!(position(&s, Axis::X).position, Ok(1100));
    assert_eq!(position(&s, Axis::Y).position, Ok(440));
    assert_eq!(tag_texts(&s, Axis::X), vec!["-x_no_stick", "-x_min", "+x_max"]);
}

#[test]
fn top_right_sticks_max_on_x_and_min_on_y() {
    let s = session(config(true, true), pads(), plain_client(), origin_params(PositionArg::TopRight));
    assert_eq!(position(&s, Axis::X).position, Ok(1100));
    assert_eq!(position(&s, Axis::Y).position, Ok(30));
    assert_eq!(tag_texts(&s, Axis::X), vec!["-x_no_stick", "-x_min", "+x_max"]);
    assert_eq!(tag_texts(&s, Axis::Y), vec!["-y_no_stick", "+y_min", "-y_max"]);
}

#[test]
fn left_centres_vertically_without_stick() {
    let s = session(config(true, true), pads(), plain_client(), origin_params(PositionArg::Left));
    assert_eq!(position(&s, Axis::X).position, Ok(10));
    // (1040 + 30 - 600) / 2 = 235
    assert_eq!(position(&s, Axis::Y).position, Ok(235));
    assert!(tag_texts(&s, Axis::X).is_empty());
    assert_eq!(tag_texts(&s, Axis::Y), vec!["+y_no_stick", "-y_min", "-y_max"]);
}

#[test]
fn cursor_centres_the_window_on_the_cursor() {
    let s = session(config(false, false), no_pads(), plain_client(), position_params(PositionArg::Cursor));
    assert_eq!(position(&s, Axis::X).position, Ok(800));
    assert_eq!(position(&s, Axis::Y).position, Ok(350));
}

#[test]
fn close_and_far_pick_opposite_corners() {
    let c = client(
        ClientAxisData { window_pos: 100, window_size: 400, cursor_pos: 300 },
        ClientAxisData { window_pos: 50, window_size: 300, cursor_pos: 900 },
    );
    let close = session(config(false, false), no_pads(), c.clone(), position_params(PositionArg::Close));
    assert_eq!(position(&close, Axis::X).position, Ok(0));
    assert_eq!(position(&close, Axis::Y).position, Ok(780));
    let far = session(config(false, false), no_pads(), c, position_params(PositionArg::Far));
    assert_eq!(position(&far, Axis::X).position, Ok(1520));
    assert_eq!(position(&far, Axis::Y).position, Ok(0));
}

#[test]
fn opposite_is_kept_inside_the_screen() {
    let c = client(
        ClientAxisData { window_pos: 0, window_size: 400, cursor_pos: 1900 },
        ClientAxisData { window_pos: 0, window_size: 300, cursor_pos: 100 },
    );
    let s = session(config(false, false), no_pads(), c, position_params(PositionArg::Opposite));
    // 1920 - 1900 - 200 = -180, kept at 0
    assert_eq!(position(&s, Axis::X).position, Ok(0));
    // 1080 - 100 - 150 = 830, kept at 1080 - 300
    assert_eq!(position(&s, Axis::Y).position, Ok(780));
}

#[test]
fn any_before_opening_asks_for_no_position() {
    let s = session(config(false, false), no_pads(), plain_client(), origin_params(PositionArg::Any));
    assert_eq!(position(&s, Axis::X).position, Err(PositionError::NoPosition));
}

#[test]
fn any_on_an_open_window_keeps_it_where_it_is() {
    let s = session(config(false, false), no_pads(), plain_client(), position_params(PositionArg::Any));
    assert_eq!(position(&s, Axis::X).position, Ok(100));
    assert_eq!(position(&s, Axis::Y).position, Ok(50));
}

#[test]
fn at_before_opening_is_corrected_by_the_opening_size() {
    let mut p = empty_parameters();
    p.binary = Binary::Open;
    p.at = Some(PerAxis { x: 50, y: 60 });
    let s = session(config(false, false), no_pads(), plain_client(), p);
    assert_eq!(position(&s, Axis::X).position, Ok(178));
    assert_eq!(position(&s, Axis::Y).position, Ok(188));
}

#[test]
fn at_with_a_size_is_taken_as_it_is() {
    let mut p = origin_params(PositionArg::Any);
    p.at = Some(PerAxis { x: 50, y: 60 });
    let s = session(config(false, false), no_pads(), plain_client(), p);
    assert_eq!(position(&s, Axis::X).position, Ok(50));
    assert_eq!(position(&s, Axis::Y).position, Ok(60));
}

#[test]
fn at_out_of_range_is_refused() {
    let mut p = empty_parameters();
    p.binary = Binary::Open;
    p.at = Some(PerAxis { x: 32767, y: 0 });
    let s = session(config(false, false), no_pads(), plain_client(), p);
    assert_eq!(position(&s, Axis::X).position, Err(PositionError::OutOfRange));
}

#[test]
fn random_stays_in_the_area_and_varies() {
    let s = session(config(false, false), no_pads(), plain_client(), origin_params(PositionArg::Random));
    let mut seen = Vec::new();
    for _ in 0..200 {
        let x = position(&s, Axis::X).position.unwrap();
        let y = position(&s, Axis::Y).position.unwrap();
        assert!((0..=1120).contains(&x));
        assert!((0..=480).contains(&y));
        if !seen.contains(&x) {
            seen.push(x);
        }
    }
    assert!(seen.len() > 1);
}

#[test]
fn random_with_a_given_pick_is_clamped() {
    let s = session(config(false, false), no_pads(), plain_client(), origin_params(PositionArg::Random));
    assert_eq!(position_with_pick(&s, Axis::X, 500).position, Ok(500));
    assert_eq!(position_with_pick(&s, Axis::X, 5000).position, Ok(1120));
    assert_eq!(position_with_pick(&s, Axis::X, -5).position, Ok(0));
}

#[test]
fn random_on_an_opened_window_keeps_its_place() {
    let mut p = position_params(PositionArg::Random);
    p.binary = Binary::Open;
    let s = session(config(false, false), no_pads(), plain_client(), p);
    assert_eq!(position(&s, Axis::X).position, Ok(100));
}

#[test]
fn default_offset_before_opening_is_a_fifth_of_the_height() {
    let mut p = empty_parameters();
    p.position = PositionArg::Center;
    let s = session(config(false, false), no_pads(), plain_client(), p);
    assert_eq!(window_offset(&s, Axis::X), -216);
    let mut p2 = empty_parameters();
    p2.default_size = true;
    let s2 = session(config(false, false), no_pads(), plain_client(), p2);
    assert_eq!(window_offset(&s2, Axis::X), -400);
    assert_eq!(window_offset(&s2, Axis::Y), -300);
}

#[test]
fn window_position_switches_to_the_position_system() {
    let mut s = session(config(false, false), no_pads(), plain_client(), origin_params(PositionArg::Center));
    let (px, py) = window_position(&mut s);
    assert_eq!(px.position, Ok(560));
    assert_eq!(py.unwrap().position, Ok(240));
    assert_eq!(s.params.count_system, CountSystem::Position);
}

#[test]
fn window_position_without_position_leaves_the_session() {
    let mut s = session(config(false, false), no_pads(), plain_client(), origin_params(PositionArg::Any));
    let (px, py) = window_position(&mut s);
    assert_eq!(px.position, Err(PositionError::NoPosition));
    assert!(py.is_none());
    assert_eq!(s.params.count_system, CountSystem::Origin);
}

#[test]
fn origin_position_as_text() {
    let s = session(config(false, false), no_pads(), plain_client(), origin_params(PositionArg::Center));
    assert_eq!(origin_position(&s, Axis::X).0, "560");
    assert_eq!(origin_position(&s, Axis::Y).0, "240");
    let any = session(config(false, false), no_pads(), plain_client(), origin_params(PositionArg::Any));
    assert_eq!(origin_position(&any, Axis::X).0, "");
}

#[test]
fn move_to_corner_splits_at_the_middle() {
    assert_eq!(move_to_corner(0, 1920, 1920, 960, 400), 0);
    assert_eq!(move_to_corner(0, 1920, 1920, 961, 400), 1520);
    assert_eq!(move_to_corner(100, 1000, -3, 99, 50), 100);
    assert_eq!(move_to_corner(100, 1000, -3, 100, 50), 950);
}

#[test]
fn at_is_kept_once_the_window_is_open() {
    let mut p = position_params(PositionArg::Random);
    p.at = Some(PerAxis { x: 50, y: 60 });
    let s = session(config(true, true), pads(), plain_client(), p);
    assert_eq!(position(&s, Axis::X).position, Ok(50));
    assert_eq!(position(&s, Axis::Y).position, Ok(60));
}

#[test]
fn center_leaves_equal_room() {
    let c = client(
        ClientAxisData { window_pos: 0, window_size: 401, cursor_pos: 0 },
        ClientAxisData { window_pos: 0, window_size: 300, cursor_pos: 0 },
    );
    let s = session(config(true, true), pads(), c, position_params(PositionArg::Center));
    let x = position(&s, Axis::X).position.unwrap();
    // area [10, 1900], window 401 wide: 745 free below it, 744 above
    assert_eq!(x, 755);
    let low = x - 10;
    let high = 1900 - (x + 401);
    assert!((low - high).abs() <= 1);
}
