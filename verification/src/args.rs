//! The command line: the modes of the program and their options.
use vstd::prelude::*;
use crate::structs::PositionArg;
use crate::text::str_eq;

verus! {

#[derive(Debug, Clone)]
pub struct DaemonArgs {
    pub config: String,
}

#[derive(Debug, Clone)]
pub struct ExecArgs {
    pub executable: String,
    pub force: bool,
    pub default_size: bool,
    pub origin_size: bool,
    pub tile: bool,
    pub size: Vec<String>,
    pub at: Vec<i16>,
    pub position: String,
}

#[derive(Debug, Clone)]
pub struct TogglefloatingArgs {
    pub force: bool,
    pub default_size: bool,
    pub size: Vec<u16>,
    pub at: Vec<i16>,
    pub position: String,
}

#[derive(Debug, Clone)]
pub struct ResizeactiveArgs {
    pub resize_x: String,
    pub resize_y: String,
    pub force: bool,
    pub no_invert: bool,
    pub exact: bool,
}

#[derive(Debug, Clone)]
pub struct MovewindowArgs {
    pub force: bool,
    pub direction: String,
    pub position: String,
}

/// The modes of the program, each with its options.
#[derive(Debug, Clone)]
pub enum Modes {
    Daemon { config: String },
    Exec {
        executable: String,
        force: bool,
        default_size: bool,
        origin_size: bool,
        tile: bool,
        size: Vec<String>,
        at: Vec<i16>,
        position: String,
    },
    Togglefloating {
        force: bool,
        default_size: bool,
        size: Vec<u16>,
        at: Vec<i16>,
        position: String,
    },
    Resizeactive {
        resize_x: String,
        resize_y: String,
        force: bool,
        no_invert: bool,
        exact: bool,
    },
    Movewindow { force: bool, direction: String, position: String },
}

#[derive(Debug, Clone)]
pub struct Args {
    pub mode: Modes,
}

/// The options of the `daemon` mode.
pub fn daemon_args(mode: Modes) -> (a: DaemonArgs)
    requires
        mode is Daemon,
    ensures
        a.config == mode->Daemon_config,
{
    match mode {
        Modes::Daemon { config } => DaemonArgs { config },
        _ => DaemonArgs { config: String::new() },
    }
}

/// The options of the `exec` mode.
pub fn exec_args(mode: Modes) -> (a: ExecArgs)
    requires
        mode is Exec,
    ensures
        a.executable == mode->Exec_executable,
        a.force == mode->Exec_force,
        a.default_size == mode->Exec_default_size,
        a.origin_size == mode->Exec_origin_size,
        a.tile == mode->Exec_tile,
        a.size == mode->Exec_size,
        a.at == mode->Exec_at,
        a.position == mode->Exec_position,
{
    match mode {
        Modes::Exec { executable, force, default_size, origin_size, tile, size, at, position } => {
            ExecArgs { executable, force, default_size, origin_size, tile, size, at, position }
        },
        _ => ExecArgs {
            executable: String::new(),
            force: false,
            default_size: false,
            origin_size: false,
            tile: false,
            size: Vec::new(),
            at: Vec::new(),
            position: String::new(),
        },
    }
}

/// The options of the `togglefloating` mode.
pub fn togglefloating_args(mode: Modes) -> (a: TogglefloatingArgs)
    requires
        mode is Togglefloating,
    ensures
        a.force == mode->Togglefloating_force,
        a.default_size == mode->Togglefloating_default_size,
        a.size == mode->Togglefloating_size,
        a.at == mode->Togglefloating_at,
        a.position == mode->Togglefloating_position,
{
    match mode {
        Modes::Togglefloating { force, default_size, size, at, position } => {
            TogglefloatingArgs { force, default_size, size, at, position }
        },
        _ => TogglefloatingArgs {
            force: false,
            default_size: false,
            size: Vec::new(),
            at: Vec::new(),
            position: String::new(),
        },
    }
}

/// The options of the `resizeactive` mode.
pub fn resizeactive_args(mode: Modes) -> (a: ResizeactiveArgs)
    requires
        mode is Resizeactive,
    ensures
        a.resize_x == mode->Resizeactive_resize_x,
        a.resize_y == mode->Resizeactive_resize_y,
        a.force == mode->Resizeactive_force,
        a.no_invert == mode->Resizeactive_no_invert,
        a.exact == mode->Resizeactive_exact,
{
    match mode {
        Modes::Resizeactive { resize_x, resize_y, force, no_invert, exact } => {
            ResizeactiveArgs { resize_x, resize_y, force, no_invert, exact }
        },
        _ => ResizeactiveArgs {
            resize_x: String::new(),
            resize_y: String::new(),
            force: false,
            no_invert: false,
            exact: false,
        },
    }
}

/// The options of the `movewindow` mode.
pub fn movewindow_args(mode: Modes) -> (a: MovewindowArgs)
    requires
        mode is Movewindow,
    ensures
        a.force == mode->Movewindow_force,
        a.direction == mode->Movewindow_direction,
        a.position == mode->Movewindow_position,
{
    match mode {
        Modes::Movewindow { force, direction, position } => MovewindowArgs {
            force,
            direction,
            position,
        },
        _ => MovewindowArgs { force: false, direction: String::new(), position: String::new() },
    }
}

/// The value of `--position` that a text names.
pub open spec fn spec_position_from_name(s: Seq<char>) -> Option<PositionArg> {
    if s == "l"@ || s == "left"@ {
        Some(PositionArg::Left)
    } else if s == "r"@ || s == "right"@ {
        Some(PositionArg::Right)
    } else if s == "t"@ || s == "top"@ {
        Some(PositionArg::Top)
    } else if s == "b"@ || s == "bottom"@ {
        Some(PositionArg::Bottom)
    } else if s == "tl"@ || s == "top-left"@ {
        Some(PositionArg::TopLeft)
    } else if s == "tr"@ || s == "top-right"@ {
        Some(PositionArg::TopRight)
    } else if s == "bl"@ || s == "bottom-left"@ {
        Some(PositionArg::BottomLeft)
    } else if s == "br"@ || s == "bottom-right"@ {
        Some(PositionArg::BottomRight)
    } else if s == "center"@ {
        Some(PositionArg::Center)
    } else if s == "close"@ {
        Some(PositionArg::Close)
    } else if s == "far"@ {
        Some(PositionArg::Far)
    } else if s == "cursor"@ {
        Some(PositionArg::Cursor)
    } else if s == "opposite"@ {
        Some(PositionArg::Opposite)
    } else if s == "random"@ {
        Some(PositionArg::Random)
    } else if s == "any"@ {
        Some(PositionArg::Any)
    } else {
        None
    }
}

/// The value of `--position` that a text names.
pub fn position_from_name(s: &str) -> (r: Option<PositionArg>)
    ensures
        r == spec_position_from_name(s@),
{
    if str_eq(s, "l") || str_eq(s, "left") {
        Some(PositionArg::Left)
    } else if str_eq(s, "r") || str_eq(s, "right") {
        Some(PositionArg::Right)
    } else if str_eq(s, "t") || str_eq(s, "top") {
        Some(PositionArg::Top)
    } else if str_eq(s, "b") || str_eq(s, "bottom") {
        Some(PositionArg::Bottom)
    } else if str_eq(s, "tl") || str_eq(s, "top-left") {
        Some(PositionArg::TopLeft)
    } else if str_eq(s, "tr") || str_eq(s, "top-right") {
        Some(PositionArg::TopRight)
    } else if str_eq(s, "bl") || str_eq(s, "bottom-left") {
        Some(PositionArg::BottomLeft)
    } else if str_eq(s, "br") || str_eq(s, "bottom-right") {
        Some(PositionArg::BottomRight)
    } else if str_eq(s, "center") {
        Some(PositionArg::Center)
    } else if str_eq(s, "close") {
        Some(PositionArg::Close)
    } else if str_eq(s, "far") {
        Some(PositionArg::Far)
    } else if str_eq(s, "cursor") {
        Some(PositionArg::Cursor)
    } else if str_eq(s, "opposite") {
        Some(PositionArg::Opposite)
    } else if str_eq(s, "random") {
        Some(PositionArg::Random)
    } else if str_eq(s, "any") {
        Some(PositionArg::Any)
    } else {
        None
    }
}

/// The position a text asks for; a text that names none places the window as `any` does.
pub open spec fn spec_position_or_any(s: Seq<char>) -> PositionArg {
    match spec_position_from_name(s) {
        Some(p) => p,
        None => PositionArg::Any,
    }
}

pub fn position_or_any(s: &str) -> (r: PositionArg)
    ensures
        r == spec_position_or_any(s@),
{
    match position_from_name(s) {
        Some(p) => p,
        None => PositionArg::Any,
    }
}

/// The direction a window is moved in by `movewindow`.
#[derive(Clone, Copy, Debug, PartialEq, Eq, Structural)]
pub enum Direction {
    Left,
    Right,
    Up,
    Down,
}

pub open spec fn spec_direction_from_name(s: Seq<char>) -> Option<Direction> {
    if s == "l"@ {
        Some(Direction::Left)
    } else if s == "r"@ {
        Some(Direction::Right)
    } else if s == "u"@ {
        Some(Direction::Up)
    } else if s == "d"@ {
        Some(Direction::Down)
    } else {
        None
    }
}

/// The direction a text names.
pub fn direction_from_name(s: &str) -> (r: Option<Direction>)
    ensures
        r == spec_direction_from_name(s@),
{
    if str_eq(s, "l") {
        Some(Direction::Left)
    } else if str_eq(s, "r") {
        Some(Direction::Right)
    } else if str_eq(s, "u") {
        Some(Direction::Up)
    } else if str_eq(s, "d") {
        Some(Direction::Down)
    } else {
        None
    }
}

} // verus!
