//! The data that the tools pass around: screen geometry, the configuration,
//! the active window and the parameters of one run.
use vstd::prelude::*;
use crate::cache::Keyed;

verus! {

/// One of the two screen axes.
#[derive(Clone, Copy, Debug, PartialEq, Eq, Structural)]
pub enum Axis {
    X,
    Y,
}

/// A value for each axis.
#[derive(Clone, Copy, Debug)]
pub struct PerAxis<T> {
    pub x: T,
    pub y: T,
}

impl<T: Copy> PerAxis<T> {
    pub open spec fn at(self, axis: Axis) -> T {
        match axis {
            Axis::X => self.x,
            Axis::Y => self.y,
        }
    }

    pub fn get(&self, axis: Axis) -> (r: T)
        ensures
            r == self.at(axis),
    {
        match axis {
            Axis::X => self.x,
            Axis::Y => self.y,
        }
    }
}

/// Per-axis part of the configuration: paddings, default size and margin, in pixels.
#[derive(Clone, Copy, Debug)]
pub struct ConfigAxisData {
    pub padding_min: i16,
    pub padding_max: i16,
    pub default_size: i16,
    pub margin: i16,
}

#[derive(Clone, Copy, Debug)]
pub struct CountAxisData {
    pub max_position: i16,
    pub window_center: i16,
    pub monitor_resolution: i16,
}

/// Per-axis data of the active window: its position, its size and the cursor.
#[derive(Clone, Copy, Debug)]
pub struct ClientAxisData {
    pub window_pos: i16,
    pub window_size: i16,
    pub cursor_pos: i16,
}

/// What the tools know of the active window.
#[derive(Clone, Debug)]
pub struct FromClient {
    pub axis_data: PerAxis<ClientAxisData>,
    pub tags: Vec<String>,
    pub address: String,
    pub class: String,
    pub monitor: String,
    pub floating: bool,
    pub fullscreen: bool,
}

/// The configuration of the monitor in use.
#[derive(Clone, Copy, Debug)]
pub struct Config {
    pub axis_data: PerAxis<ConfigAxisData>,
    pub detect_padding: bool,
    pub detect_bars: bool,
    pub standard_resize: bool,
    pub stick_to_borders: bool,
    pub invert_resize_in_stick_mode: bool,
    pub resize_through_borders: bool,
    pub toggle_to_open_size: bool,
}

/// The space kept free at the low and the high end of an axis.
#[derive(Clone, Copy, Debug)]
pub struct Paddings {
    pub padding_min: i16,
    pub padding_max: i16,
}

/// The extent of the monitor along one axis.
#[derive(Clone, Copy, Debug)]
pub struct MonitorAxisData {
    pub min_point: i16,
    pub max_point: i16,
    pub resolution: u16,
}

#[derive(Clone, Debug)]
pub struct MonitorData {
    pub axis_data: PerAxis<MonitorAxisData>,
    pub name: String,
}

/// A size or padding as the configuration file writes it: a number of pixels,
/// a text such as `50%` or `30$`, or something else.
#[derive(Clone, Debug)]
pub enum SizeValue {
    Integer(i64),
    Text(String),
    Other,
}

/// One `[monitors.*]` subsection, where each entry may be missing.
#[derive(Clone, Debug)]
pub struct PreConfig {
    pub padding: Option<(SizeValue, SizeValue, SizeValue, SizeValue)>,
    pub default_size: Option<(SizeValue, SizeValue)>,
    pub margin: Option<(SizeValue, SizeValue)>,
    pub detect_padding: Option<bool>,
    pub detect_bars: Option<bool>,
    pub standard_resize: Option<bool>,
    pub stick_to_borders: Option<bool>,
    pub invert_resize_in_stick_mode: Option<bool>,
    pub resize_through_borders: Option<bool>,
    pub toggle_to_open_size: Option<bool>,
}

/// A value of a `[windows.<class>]` subsection: a pair of sizes, or something else.
#[derive(Clone, Debug)]
pub enum RuleValue {
    Pair(SizeValue, SizeValue),
    NotPair,
}

/// The `[windows]` section: for each class, its subsection, or `None` when that is not a table.
pub type WindowsConfig = Keyed<Option<Keyed<RuleValue>>>;

/// What the daemon hands to the other tools.
#[derive(Debug)]
pub struct DaemonData {
    pub daemon_config: Config,
    pub daemon_windows_config: WindowsConfig,
    pub daemon_monitor: MonitorData,
    pub daemon_layers: PerAxis<Paddings>,
}

/// The tool that runs.
#[derive(Clone, Copy, Debug, PartialEq, Eq, Structural)]
pub enum Binary {
    Unset,
    Open,
    ToggleFloating,
}

/// Whether a window is placed before it opens (`Origin`) or once it exists (`Position`).
#[derive(Clone, Copy, Debug, PartialEq, Eq, Structural)]
pub enum CountSystem {
    Origin,
    Position,
}

/// The values of the `--position` option.
#[derive(Clone, Copy, Debug, PartialEq, Eq, Structural)]
pub enum PositionArg {
    Left,
    Right,
    Top,
    Bottom,
    TopLeft,
    TopRight,
    BottomLeft,
    BottomRight,
    Center,
    Close,
    Far,
    Cursor,
    Opposite,
    Random,
    Any,
}

/// Requested sizes: per axis, and per axis for the window before it opens.
#[derive(Clone, Copy, Debug)]
pub struct SizeParams {
    pub x: Option<i16>,
    pub y: Option<i16>,
    pub origin_x: Option<i16>,
    pub origin_y: Option<i16>,
}

impl SizeParams {
    pub open spec fn axis_spec(self, axis: Axis) -> Option<i16> {
        match axis {
            Axis::X => self.x,
            Axis::Y => self.y,
        }
    }

    pub open spec fn origin_spec(self, axis: Axis) -> Option<i16> {
        match axis {
            Axis::X => self.origin_x,
            Axis::Y => self.origin_y,
        }
    }

    pub open spec fn is_empty_spec(self) -> bool {
        self.x is None && self.y is None && self.origin_x is None && self.origin_y is None
    }

    pub fn axis(&self, axis: Axis) -> (r: Option<i16>)
        ensures
            r == self.axis_spec(axis),
    {
        match axis {
            Axis::X => self.x,
            Axis::Y => self.y,
        }
    }

    pub fn origin(&self, axis: Axis) -> (r: Option<i16>)
        ensures
            r == self.origin_spec(axis),
    {
        match axis {
            Axis::X => self.origin_x,
            Axis::Y => self.origin_y,
        }
    }

    pub fn is_empty(&self) -> (r: bool)
        ensures
            r == self.is_empty_spec(),
    {
        self.x.is_none() && self.y.is_none() && self.origin_x.is_none() && self.origin_y.is_none()
    }

    /// No requested size at all.
    pub fn empty() -> (r: SizeParams)
        ensures
            r.is_empty_spec(),
    {
        SizeParams { x: None, y: None, origin_x: None, origin_y: None }
    }

    /// A size for each axis.
    pub fn of_axes(x: i16, y: i16) -> (r: SizeParams)
        ensures
            r.x == Some(x),
            r.y == Some(y),
            r.origin_x is None,
            r.origin_y is None,
    {
        SizeParams { x: Some(x), y: Some(y), origin_x: None, origin_y: None }
    }

    /// A size for each axis of the window before it opens.
    pub fn of_origin(x: i16, y: i16) -> (r: SizeParams)
        ensures
            r.origin_x == Some(x),
            r.origin_y == Some(y),
            r.x is None,
            r.y is None,
    {
        SizeParams { x: None, y: None, origin_x: Some(x), origin_y: Some(y) }
    }
}

/// The requested sizes, where none requested counts as empty.
pub open spec fn size_or_empty(size: Option<SizeParams>) -> SizeParams {
    match size {
        Some(s) => s,
        None => SizeParams { x: None, y: None, origin_x: None, origin_y: None },
    }
}

/// The parameters of one run of a tool.
#[derive(Clone, Copy, Debug)]
pub struct Parameters {
    pub size_from_args: bool,
    pub default_size: bool,
    pub resize_x: bool,
    pub resize_y: bool,
    pub tile: bool,
    pub origin_size: bool,
    pub binary: Binary,
    pub count_system: CountSystem,
    pub position: PositionArg,
    pub size: Option<SizeParams>,
    pub at: Option<PerAxis<i16>>,
}

/// The parameters before any option is read.
pub open spec fn spec_empty_parameters() -> Parameters {
    Parameters {
        size_from_args: false,
        default_size: false,
        resize_x: false,
        resize_y: false,
        tile: false,
        origin_size: false,
        binary: Binary::Unset,
        count_system: CountSystem::Origin,
        position: PositionArg::Any,
        size: None,
        at: None,
    }
}

pub fn empty_parameters() -> (p: Parameters)
    ensures
        p == spec_empty_parameters(),
{
    Parameters {
        size_from_args: false,
        default_size: false,
        resize_x: false,
        resize_y: false,
        tile: false,
        origin_size: false,
        binary: Binary::Unset,
        count_system: CountSystem::Origin,
        position: PositionArg::Any,
        size: None,
        at: None,
    }
}

/// Everything a tool knows when it places or resizes the active window.
#[derive(Clone, Debug)]
pub struct Session {
    pub config: Config,
    pub layers: PerAxis<Paddings>,
    pub monitor: MonitorData,
    pub client: FromClient,
    pub params: Parameters,
}

/// The three tags that say how a window sticks to the borders of one axis.
#[derive(Clone, Copy, Debug, PartialEq, Eq, Structural)]
pub enum StickTag {
    Min,
    Max,
    NoStick,
}

/// Which of the stick tags of one axis a window carries.
#[derive(Clone, Copy, Debug, PartialEq, Eq, Structural)]
pub struct TagSet {
    pub min: bool,
    pub max: bool,
    pub no_stick: bool,
}

impl TagSet {
    /// The set that holds exactly one tag.
    pub open spec fn only_spec(tag: StickTag) -> TagSet {
        TagSet {
            min: tag == StickTag::Min,
            max: tag == StickTag::Max,
            no_stick: tag == StickTag::NoStick,
        }
    }

    pub fn only(tag: StickTag) -> (r: TagSet)
        ensures
            r == Self::only_spec(tag),
    {
        TagSet {
            min: tag == StickTag::Min,
            max: tag == StickTag::Max,
            no_stick: tag == StickTag::NoStick,
        }
    }
}

/// Add (`untag == false`) or remove (`untag == true`) the tag `<axis>_<tag>` on the active window.
#[derive(Clone, Copy, Debug, PartialEq, Eq, Structural)]
pub struct TagCommand {
    pub axis: Axis,
    pub tag: StickTag,
    pub untag: bool,
}

/// The size remembered for a window class.
#[derive(Clone, Copy, Debug)]
pub struct ClassSize {
    pub size: (i16, i16),
}

#[derive(Clone, Debug)]
pub struct Cache {
    pub class: String,
    pub size: Vec<u16>,
}

#[derive(Clone, Debug)]
pub struct MyVec {
    pub vec: Vec<i16>,
}

} // verus!
