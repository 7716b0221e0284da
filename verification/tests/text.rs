use hyprfloat::data::remove_zeros;
use hyprfloat::tags::{axis_tags, parse_tags, tag_it, tag_name, tag_window, tag_window_once};
use hyprfloat::structs::{Axis, Config, ConfigAxisData, PerAxis, StickTag, TagCommand, TagSet};
use hyprfloat::text::{
    contains_text, cut_first_last_iter, decimal, is_space_exec, parse_i32, split_text,
    split_whitespace, str_eq,
};

fn config(detect_padding: bool, stick: bool, through: bool) -> Config {
    Config {
        axis_data: PerAxis {
            x: ConfigAxisData { padding_min: 0, padding_max: 0, default_size: 800, margin: 0 },
            y: ConfigAxisData { padding_min: 0, padding_max: 0, default_size: 600, margin: 0 },
        },
        detect_padding,
        detect_bars: false,
        standard_resize: true,
        stick_to_borders: stick,
        invert_resize_in_stick_mode: false,
        resize_through_borders: through,
        toggle_to_open_size: false,
    }
}

#[test]
fn decimal_writes_signed_numbers() {
    assert_eq!(decimal(0), "0");
    assert_eq!(decimal(560), "560");
    assert_eq!(decimal(-123), "-123");
    assert_eq!(decimal(i16::MIN), "-32768");
    assert_eq!(decimal(i16::MAX), "32767");
}

#[test]
fn parse_reads_as_i32_from_str() {
    assert_eq!(parse_i32("42"), Some(42));
    assert_eq!(parse_i32("+42"), Some(42));
    assert_eq!(parse_i32("-0"), Some(0));
    assert_eq!(parse_i32("-2147483648"), Some(i32::MIN));
    assert_eq!(parse_i32("2147483647"), Some(i32::MAX));
    assert_eq!(parse_i32("2147483648"), None);
    assert_eq!(parse_i32(""), None);
    assert_eq!(parse_i32("-"), None);
    assert_eq!(parse_i32("12a"), None);
    assert_eq!(parse_i32(" 12"), None);
    assert_eq!(parse_i32("50%"), None);
    for s in ["7", "-7", "+0", "007", "99999999999", "--1"] {
        assert_eq!(parse_i32(s), s.parse::<i32>().ok());
    }
}

#[test]
fn decimal_reads_back() {
    for n in [i16::MIN, -1000, -1, 0, 1, 9, 10, 32767] {
        assert_eq!(parse_i32(decimal(n).as_str()), Some(n as i32));
    }
}

#[test]
fn words_are_cut_at_white_space() {
    assert_eq!(split_whitespace("  kitty --class\tfoo \n"), vec!["kitty", "--class", "foo"]);
    assert!(split_whitespace("   ").is_empty());
    assert_eq!(split_whitespace("a\u{3000}b"), vec!["a", "b"]);
    for s in ["x y", " a  b\tc ", "", "one"] {
        let ours = split_whitespace(s);
        let std_words: Vec<&str> = s.split_whitespace().collect();
        assert_eq!(ours, std_words);
    }
}

#[test]
fn split_and_join_give_the_text_back() {
    assert_eq!(split_text("a, b, c", ", "), vec!["a", "b", "c"]);
    assert_eq!(split_text("a,,b", ","), vec!["a", "", "b"]);
    assert_eq!(split_text("", ","), vec![""]);
    assert_eq!(split_text("abc", ","), vec!["abc"]);
    for (s, sep) in [("x_min, y_max", ", "), ("a--b--", "--"), ("", "ab"), ("aaa", "aa")] {
        let pieces = split_text(s, sep);
        assert_eq!(pieces.join(sep), s);
        let std_pieces: Vec<&str> = s.split(sep).collect();
        assert_eq!(pieces, std_pieces);
    }
}

#[test]
fn cut_first_last_drops_the_quotes() {
    assert_eq!(cut_first_last_iter("\"kitty\""), "kitty");
    assert_eq!(cut_first_last_iter("ab"), "");
    assert_eq!(cut_first_last_iter(""), "");
    assert_eq!(cut_first_last_iter("abc"), "b");
    for s in ["\"é\"", "xéy", "[1, 2]"] {
        let expected: String = s.chars().skip(1).take(s.len() - 2).collect();
        assert_eq!(cut_first_last_iter(s), expected);
    }
}

#[test]
fn text_helpers() {
    assert!(str_eq("abc", "abc"));
    assert!(!str_eq("abc", "abd"));
    assert!(contains_text("waybar", "bar"));
    assert!(!contains_text("wayba", "bar"));
    assert!(contains_text("x", ""));
    assert!(is_space_exec(' '));
    assert!(is_space_exec('\u{85}'));
    assert!(!is_space_exec('a'));
}

#[test]
fn remove_zeros_keeps_the_message() {
    assert_eq!(remove_zeros(&vec![0, 104, 0, 105, 0, 0]), vec![104, 105]);
    assert!(remove_zeros(&vec![0, 0]).is_empty());
}

#[test]
fn tag_it_leaves_one_stick_tag() {
    let cmds = tag_it(&config(true, true, false), Axis::Y, StickTag::Max);
    let texts: Vec<String> = cmds.iter().map(|c| tag_window(c)).collect();
    assert_eq!(texts, vec!["-y_no_stick", "-y_min", "+y_max"]);
    let added: Vec<&TagCommand> = cmds.iter().filter(|c| !c.untag).collect();
    assert_eq!(added.len(), 1);
    assert_eq!(added[0].tag, StickTag::Max);
}

#[test]
fn tagging_needs_padding_stick_and_no_force() {
    assert!(tag_it(&config(false, true, false), Axis::X, StickTag::Min).is_empty());
    assert!(tag_it(&config(true, false, false), Axis::X, StickTag::Min).is_empty());
    assert!(tag_it(&config(true, true, true), Axis::X, StickTag::Min).is_empty());
    assert_eq!(
        tag_window_once(&config(true, true, false), Axis::X, StickTag::Min, true),
        Some(TagCommand { axis: Axis::X, tag: StickTag::Min, untag: true })
    );
    assert_eq!(tag_window_once(&config(false, true, false), Axis::X, StickTag::Min, true), None);
}

#[test]
fn tag_names() {
    assert_eq!(tag_name(Axis::X, StickTag::NoStick), "x_no_stick");
    assert_eq!(tag_name(Axis::Y, StickTag::Min), "y_min");
}

#[test]
fn tags_are_read_from_the_first_line() {
    let tags = parse_tags("x_min, y_max, other\nignored");
    assert_eq!(tags, vec!["x_min", "y_max", "other"]);
    assert_eq!(axis_tags(&tags, Axis::X), TagSet { min: true, max: false, no_stick: false });
    assert_eq!(axis_tags(&tags, Axis::Y), TagSet { min: false, max: true, no_stick: false });
    assert_eq!(parse_tags(""), vec![""]);
}
