//! Where a floating window goes on one axis, for each value of `--position`.
use vstd::prelude::*;
use rand::Rng;
use crate::text::{decimal, spec_decimal};
use crate::arith::{
    div_trunc, fits_i16, minus_fifth, minus_two_fifteenths, round_halves, spec_minus_fifth,
    spec_minus_two_fifteenths, spec_round_halves,
};
use crate::structs::{
    size_or_empty, Axis, Binary, CountSystem, Parameters, PositionArg, Session, SizeParams, StickTag,
    TagCommand,
};
use crate::tags::{spec_tag_it, tag_it};

verus! {

/// Why no position came out.
#[derive(Clone, Copy, Debug, PartialEq, Eq, Structural)]
pub enum PositionError {
    /// `--position any` outside the `position` count system: no position is asked for.
    NoPosition,
    /// The position does not fit the coordinate type.
    OutOfRange,
}

/// A position on one axis, with the tag commands that placing the window issues.
#[derive(Debug)]
pub struct Placement {
    pub position: Result<i16, PositionError>,
    pub tags: Vec<TagCommand>,
}

/// `min_point` when the cursor is in the low half of the axis, else the far end less the window.
pub open spec fn spec_move_to_corner(
    min_point: int,
    max_point: int,
    resolution: int,
    cursor_pos: int,
    window_size: int,
) -> int {
    if cursor_pos <= div_trunc(resolution, 2) + min_point {
        min_point
    } else {
        max_point - window_size
    }
}

pub fn move_to_corner(
    min_point: i32,
    max_point: i32,
    resolution: i32,
    cursor_pos: i32,
    window_size: i32,
) -> (r: i32)
    requires
        -0x100000 <= min_point <= 0x100000,
        -0x100000 <= max_point <= 0x100000,
        -0x100000 <= resolution <= 0x100000,
        -0x100000 <= window_size <= 0x100000,
    ensures
        r == spec_move_to_corner(
            min_point as int,
            max_point as int,
            resolution as int,
            cursor_pos as int,
            window_size as int,
        ),
{
    if cursor_pos <= (resolution / 2) + min_point {
        min_point
    } else {
        max_point - window_size
    }
}

/// Half the size the window gets, negated: the offset from its centre to its low edge.
pub open spec fn spec_window_offset(s: Session, axis: Axis) -> int {
    let p = s.params;
    let size = size_or_empty(p.size);
    if p.count_system == CountSystem::Position {
        div_trunc(s.client.axis_data.at(axis).window_size as int, -2)
    } else if size.origin_spec(axis) is Some {
        div_trunc(size.origin_spec(axis).unwrap() as int, -2)
    } else if size.axis_spec(axis) is Some {
        div_trunc(size.axis_spec(axis).unwrap() as int, -2)
    } else if p.default_size {
        div_trunc(s.config.axis_data.at(axis).default_size as int, -2)
    } else {
        spec_minus_fifth(s.monitor.axis_data.y.resolution as int)
    }
}

/// Coordinates count from the monitor's low edge before the window opens.
pub open spec fn spec_monitor_offset(s: Session, axis: Axis) -> int {
    if s.params.count_system == CountSystem::Origin {
        s.monitor.axis_data.at(axis).min_point as int
    } else {
        0
    }
}

pub open spec fn pad_min(s: Session, axis: Axis) -> int {
    if s.config.detect_padding {
        s.layers.at(axis).padding_min as int
    } else {
        0
    }
}

pub open spec fn pad_max(s: Session, axis: Axis) -> int {
    if s.config.detect_padding {
        s.layers.at(axis).padding_max as int
    } else {
        0
    }
}

/// The low end of the area a window may take.
pub open spec fn spec_min_point(s: Session, axis: Axis) -> int {
    s.monitor.axis_data.at(axis).min_point - spec_monitor_offset(s, axis) + pad_min(s, axis)
}

/// The high end of the area a window may take.
pub open spec fn spec_max_point(s: Session, axis: Axis) -> int {
    s.monitor.axis_data.at(axis).max_point - spec_monitor_offset(s, axis) - pad_max(s, axis)
}

pub open spec fn spec_resolution(s: Session, axis: Axis) -> int {
    s.monitor.axis_data.at(axis).max_point - s.monitor.axis_data.at(axis).min_point + pad_min(
        s,
        axis,
    ) - pad_max(s, axis)
}

pub open spec fn spec_cursor(s: Session, axis: Axis) -> int {
    s.client.axis_data.at(axis).cursor_pos - spec_monitor_offset(s, axis) + pad_min(s, axis)
}

pub open spec fn spec_window_position(s: Session, axis: Axis) -> int {
    s.client.axis_data.at(axis).window_pos - spec_monitor_offset(s, axis)
}

/// The middle position for the window along the axis.
pub open spec fn spec_middle(s: Session, axis: Axis) -> int {
    div_trunc(
        spec_max_point(s, axis) + spec_min_point(s, axis) + spec_window_offset(s, axis) * 2,
        2,
    )
}

/// The position at the high end of the area.
pub open spec fn spec_high_end(s: Session, axis: Axis) -> int {
    spec_max_point(s, axis) + spec_window_offset(s, axis) * 2
}

/// Whether the position is picked at random.
pub open spec fn spec_needs_random(s: Session) -> bool {
    s.params.position == PositionArg::Random && !(s.params.count_system == CountSystem::Position
        && s.params.binary == Binary::Open)
}

/// The bounds of a random position: the low and the high end of the area, in order.
pub open spec fn spec_random_bounds(s: Session, axis: Axis) -> (int, int) {
    let lo = spec_min_point(s, axis);
    let hi = spec_high_end(s, axis);
    if lo > hi {
        (hi, lo)
    } else {
        (lo, hi)
    }
}

/// The stick tag that a position sets, if any.
pub open spec fn spec_position_anchor(s: Session, axis: Axis) -> Option<StickTag> {
    match s.params.position {
        PositionArg::Left | PositionArg::Right => if axis == Axis::Y {
            Some(StickTag::NoStick)
        } else {
            None
        },
        PositionArg::Top | PositionArg::Bottom => if axis == Axis::X {
            Some(StickTag::NoStick)
        } else {
            None
        },
        PositionArg::TopLeft => Some(StickTag::Min),
        PositionArg::TopRight => if axis == Axis::X {
            Some(StickTag::Max)
        } else {
            Some(StickTag::Min)
        },
        PositionArg::BottomLeft => if axis == Axis::Y {
            Some(StickTag::Max)
        } else {
            Some(StickTag::Min)
        },
        PositionArg::BottomRight => Some(StickTag::Max),
        PositionArg::Center => Some(StickTag::NoStick),
        _ => None,
    }
}

/// The tag commands that placing the window on `axis` issues.
pub open spec fn spec_position_tags(s: Session, axis: Axis) -> Seq<TagCommand> {
    match spec_position_anchor(s, axis) {
        Some(t) => spec_tag_it(s.config, axis, t),
        None => seq![],
    }
}

/// The position that `--position` asks for, before it is kept inside the area;
/// `pick` is the random position, used by `random` only.
pub open spec fn spec_candidate(s: Session, axis: Axis, pick: int) -> Option<int> {
    let p = s.params;
    let min = spec_min_point(s, axis);
    let max = spec_max_point(s, axis);
    let wo = spec_window_offset(s, axis);
    let m = s.monitor.axis_data.at(axis);
    let c = s.client.axis_data.at(axis);
    let pads = s.layers.at(axis);
    match p.position {
        PositionArg::Left => Some(
            if axis == Axis::Y {
                spec_middle(s, axis)
            } else {
                min
            },
        ),
        PositionArg::Right => Some(
            if axis == Axis::Y {
                spec_middle(s, axis)
            } else {
                spec_high_end(s, axis)
            },
        ),
        PositionArg::Top => Some(
            if axis == Axis::X {
                spec_middle(s, axis)
            } else {
                min
            },
        ),
        PositionArg::Bottom => Some(
            if axis == Axis::X {
                spec_middle(s, axis)
            } else {
                spec_high_end(s, axis)
            },
        ),
        PositionArg::TopLeft => Some(min),
        PositionArg::TopRight => Some(
            if axis == Axis::X {
                spec_high_end(s, axis)
            } else {
                min
            },
        ),
        PositionArg::BottomLeft => Some(
            if axis == Axis::Y {
                spec_high_end(s, axis)
            } else {
                min
            },
        ),
        PositionArg::BottomRight => Some(spec_high_end(s, axis)),
        PositionArg::Center => Some(spec_round_halves(max + min + 2 * wo)),
        PositionArg::Close => Some(
            spec_move_to_corner(min, max, spec_resolution(s, axis), spec_cursor(s, axis), -2 * wo),
        ),
        PositionArg::Far => {
            let res = if s.config.detect_padding {
                m.max_point - m.min_point + pads.padding_min
            } else {
                spec_resolution(s, axis)
            };
            let cur = if s.config.detect_padding {
                c.cursor_pos - m.min_point + pads.padding_max - pads.padding_min
            } else {
                spec_cursor(s, axis)
            };
            Some(spec_move_to_corner(min, max, res, res - cur, -2 * wo))
        },
        PositionArg::Cursor => Some(spec_cursor(s, axis) - pad_min(s, axis) + wo),
        PositionArg::Opposite => Some(max - (spec_cursor(s, axis) - pad_min(s, axis)) + min + wo),
        PositionArg::Random => Some(
            if !spec_needs_random(s) {
                if p.origin_size {
                    spec_window_position(s, axis) + wo
                } else {
                    spec_window_position(s, axis)
                }
            } else {
                pick
            },
        ),
        PositionArg::Any => if p.count_system == CountSystem::Position {
            Some(
                if p.origin_size && size_or_empty(p.size).axis_spec(axis) is Some {
                    spec_window_position(s, axis) - div_trunc(c.window_size as int, 2)
                } else {
                    spec_window_position(s, axis)
                },
            )
        } else {
            None
        },
    }
}

/// Keeps a position inside `[min, max - size]`, the low end first.
pub open spec fn spec_keep_inside(pos: int, min: int, max: int, size: int) -> int {
    if pos <= min {
        min
    } else if pos + size >= max {
        max - size
    } else {
        pos
    }
}

/// The position of the window on `axis`, or `None` when none is asked for.
pub open spec fn spec_position(s: Session, axis: Axis, pick: int) -> Option<int> {
    let p = s.params;
    match p.at {
        Some(at) => {
            let a = at.at(axis) as int;
            if p.count_system == CountSystem::Origin && size_or_empty(p.size).is_empty_spec()
                && !p.size_from_args {
                let k = if p.origin_size {
                    1int
                } else {
                    2int
                };
                Some(
                    a - div_trunc(
                        spec_minus_two_fifteenths(s.monitor.axis_data.x.resolution as int),
                        k,
                    ),
                )
            } else {
                Some(a)
            }
        },
        None => match spec_candidate(s, axis, pick) {
            None => None,
            Some(c) => Some(
                spec_keep_inside(
                    c,
                    spec_min_point(s, axis),
                    spec_max_point(s, axis),
                    -2 * spec_window_offset(s, axis),
                ),
            ),
        },
    }
}

/// How a position computed over the integers is handed out.
pub open spec fn position_result(v: Option<int>) -> Result<i16, PositionError> {
    match v {
        None => Err(PositionError::NoPosition),
        Some(x) => if fits_i16(x) {
            Ok(x as i16)
        } else {
            Err(PositionError::OutOfRange)
        },
    }
}

fn offset_half(v: i16) -> (r: i32)
    ensures
        r == div_trunc(v as int, -2),
{
    (v as i32) / -2
}

/// Half the size the window gets, negated.
pub fn window_offset(s: &Session, axis: Axis) -> (r: i32)
    ensures
        r == spec_window_offset(*s, axis),
        -0x8000 <= r <= 0x8000,
{
    let p = &s.params;
    let size = match p.size {
        Some(sz) => sz,
        None => SizeParams::empty(),
    };
    assert(size == size_or_empty(p.size));
    if p.count_system == CountSystem::Position {
        offset_half(s.client.axis_data.get(axis).window_size)
    } else if let Some(o) = size.origin(axis) {
        offset_half(o)
    } else if let Some(v) = size.axis(axis) {
        offset_half(v)
    } else if p.default_size {
        offset_half(s.config.axis_data.get(axis).default_size)
    } else {
        minus_fifth(s.monitor.axis_data.y.resolution) as i32
    }
}

fn fit(v: i32) -> (r: Result<i16, PositionError>)
    ensures
        r == position_result(Some(v as int)),
{
    if i16::MIN as i32 <= v && v <= i16::MAX as i32 {
        Ok(v as i16)
    } else {
        Err(PositionError::OutOfRange)
    }
}

/// The extent of the area a window may take on one axis, and the window in it.
pub struct Frame {
    pub min_point: i32,
    pub max_point: i32,
    pub resolution: i32,
    pub cursor: i32,
    pub window_position: i32,
    pub window_offset: i32,
}

pub open spec fn frame_matches(f: Frame, s: Session, axis: Axis) -> bool {
    &&& f.min_point == spec_min_point(s, axis)
    &&& f.max_point == spec_max_point(s, axis)
    &&& f.resolution == spec_resolution(s, axis)
    &&& f.cursor == spec_cursor(s, axis)
    &&& f.window_position == spec_window_position(s, axis)
    &&& f.window_offset == spec_window_offset(s, axis)
    &&& -0x20000 <= f.min_point <= 0x20000
    &&& -0x20000 <= f.max_point <= 0x20000
    &&& -0x20000 <= f.resolution <= 0x20000
    &&& -0x20000 <= f.cursor <= 0x20000
    &&& -0x20000 <= f.window_position <= 0x20000
    &&& -0x8000 <= f.window_offset <= 0x8000
}

pub fn frame(s: &Session, axis: Axis) -> (f: Frame)
    ensures
        frame_matches(f, *s, axis),
{
    let m = s.monitor.axis_data.get(axis);
    let c = s.client.axis_data.get(axis);
    let pads = s.layers.get(axis);
    let mo: i32 = if s.params.count_system == CountSystem::Origin {
        m.min_point as i32
    } else {
        0
    };
    let pmin: i32 = if s.config.detect_padding {
        pads.padding_min as i32
    } else {
        0
    };
    let pmax: i32 = if s.config.detect_padding {
        pads.padding_max as i32
    } else {
        0
    };
    Frame {
        min_point: m.min_point as i32 - mo + pmin,
        max_point: m.max_point as i32 - mo - pmax,
        resolution: m.max_point as i32 - m.min_point as i32 + pmin - pmax,
        cursor: c.cursor_pos as i32 - mo + pmin,
        window_position: c.window_pos as i32 - mo,
        window_offset: window_offset(s, axis),
    }
}

/// The stick tag that a position sets, if any.
pub fn position_anchor(s: &Session, axis: Axis) -> (r: Option<StickTag>)
    ensures
        r == spec_position_anchor(*s, axis),
{
    match s.params.position {
        PositionArg::Left | PositionArg::Right => if axis == Axis::Y {
            Some(StickTag::NoStick)
        } else {
            None
        },
        PositionArg::Top | PositionArg::Bottom => if axis == Axis::X {
            Some(StickTag::NoStick)
        } else {
            None
        },
        PositionArg::TopLeft => Some(StickTag::Min),
        PositionArg::TopRight => if axis == Axis::X {
            Some(StickTag::Max)
        } else {
            Some(StickTag::Min)
        },
        PositionArg::BottomLeft => if axis == Axis::Y {
            Some(StickTag::Max)
        } else {
            Some(StickTag::Min)
        },
        PositionArg::BottomRight => Some(StickTag::Max),
        PositionArg::Center => Some(StickTag::NoStick),
        _ => None,
    }
}

/// The tag commands that placing the window on `axis` issues.
pub fn position_tags(s: &Session, axis: Axis) -> (r: Vec<TagCommand>)
    ensures
        r@ == spec_position_tags(*s, axis),
{
    match position_anchor(s, axis) {
        Some(t) => tag_it(&s.config, axis, t),
        None => Vec::new(),
    }
}

/// The position that `--position` asks for, before it is kept inside the area.
#[verifier::rlimit(40)]
pub fn candidate(s: &Session, axis: Axis, f: &Frame, pick: i32) -> (r: Option<i32>)
    requires
        frame_matches(*f, *s, axis),
    ensures
        match r {
            None => spec_candidate(*s, axis, pick as int) is None,
            Some(v) => spec_candidate(*s, axis, pick as int) == Some(v as int),
        },
{
    let p = &s.params;
    let min_point = f.min_point;
    let max_point = f.max_point;
    let wo = f.window_offset;
    let middle: i32 = (max_point + min_point + wo * 2) / 2;
    let high_end: i32 = max_point + wo * 2;
    let pmin: i32 = if s.config.detect_padding {
        s.layers.get(axis).padding_min as i32
    } else {
        0
    };
    match p.position {
        PositionArg::Left => Some(
            if axis == Axis::Y {
                middle
            } else {
                min_point
            },
        ),
        PositionArg::Right => Some(
            if axis == Axis::Y {
                middle
            } else {
                high_end
            },
        ),
        PositionArg::Top => Some(
            if axis == Axis::X {
                middle
            } else {
                min_point
            },
        ),
        PositionArg::Bottom => Some(
            if axis == Axis::X {
                middle
            } else {
                high_end
            },
        ),
        PositionArg::TopLeft => Some(min_point),
        PositionArg::TopRight => Some(
            if axis == Axis::X {
                high_end
            } else {
                min_point
            },
        ),
        PositionArg::BottomLeft => Some(
            if axis == Axis::Y {
                high_end
            } else {
                min_point
            },
        ),
        PositionArg::BottomRight => Some(high_end),
        PositionArg::Center => Some(round_halves(max_point + min_point + 2 * wo)),
        PositionArg::Close => Some(
            move_to_corner(min_point, max_point, f.resolution, f.cursor, -2 * wo),
        ),
        PositionArg::Far => {
            let m = s.monitor.axis_data.get(axis);
            let c = s.client.axis_data.get(axis);
            let pads = s.layers.get(axis);
            let res: i32 = if s.config.detect_padding {
                m.max_point as i32 - m.min_point as i32 + pads.padding_min as i32
            } else {
                f.resolution
            };
            let cur: i32 = if s.config.detect_padding {
                c.cursor_pos as i32 - m.min_point as i32 + pads.padding_max as i32
                    - pads.padding_min as i32
            } else {
                f.cursor
            };
            Some(move_to_corner(min_point, max_point, res, res - cur, -2 * wo))
        },
        PositionArg::Cursor => Some(f.cursor - pmin + wo),
        PositionArg::Opposite => Some(max_point - (f.cursor - pmin) + min_point + wo),
        PositionArg::Random => {
            if p.count_system == CountSystem::Origin || p.binary != Binary::Open {
                Some(pick)
            } else if p.origin_size {
                Some(f.window_position + wo)
            } else {
                Some(f.window_position)
            }
        },
        PositionArg::Any => {
            if p.count_system == CountSystem::Position {
                let has_size = match p.size {
                    Some(sz) => sz.axis(axis).is_some(),
                    None => false,
                };
                if p.origin_size && has_size {
                    Some(f.window_position - (s.client.axis_data.get(axis).window_size as i32) / 2)
                } else {
                    Some(f.window_position)
                }
            } else {
                None
            }
        },
    }
}

/// The position on `axis` when the random position is `pick`.
pub fn position_with_pick(s: &Session, axis: Axis, pick: i32) -> (r: Placement)
    ensures
        r.position == position_result(spec_position(*s, axis, pick as int)),
        r.tags@ == spec_position_tags(*s, axis),
{
    let p = &s.params;
    let f = frame(s, axis);
    let tags = position_tags(s, axis);
    let cand = candidate(s, axis, &f, pick);
    let position = match p.at {
        Some(at) => {
            let a: i32 = at.get(axis) as i32;
            let empty = match p.size {
                Some(sz) => sz.is_empty(),
                None => true,
            };
            if p.count_system == CountSystem::Origin && empty && !p.size_from_args {
                let k: i32 = if p.origin_size {
                    1
                } else {
                    2
                };
                let corr: i32 = minus_two_fifteenths(s.monitor.axis_data.x.resolution) as i32;
                fit(a - corr / k)
            } else {
                fit(a)
            }
        },
        None => match cand {
            None => Err(PositionError::NoPosition),
            Some(v) => {
                let ws: i32 = -2 * f.window_offset;
                if v <= f.min_point {
                    fit(f.min_point)
                } else if v >= f.max_point - ws {
                    fit(f.max_point - ws)
                } else {
                    fit(v)
                }
            },
        },
    };
    Placement { position, tags }
}

/// Calls `rand::rng().random_range(lo..=hi)`; rand documents the result as drawn from
/// `[lo, hi]`, so the contract claims that bound and nothing of which value comes out.
#[verifier::external_body]
fn random_in(lo: i32, hi: i32) -> (r: i32)
    requires
        lo <= hi,
    ensures
        lo <= r <= hi,
{
    rand::rng().random_range(lo..=hi)
}

/// Whether the position is picked at random.
pub fn needs_random(s: &Session) -> (r: bool)
    ensures
        r == spec_needs_random(*s),
{
    s.params.position == PositionArg::Random && !(s.params.count_system == CountSystem::Position
        && s.params.binary == Binary::Open)
}

/// A placement on `axis` that some admissible random position gives.
pub open spec fn spec_placement_ok(pl: Placement, s: Session, axis: Axis) -> bool {
    &&& pl.tags@ == spec_position_tags(s, axis)
    &&& exists|pick: int|
        {
            &&& (spec_needs_random(s) ==> spec_random_bounds(s, axis).0 <= pick
                <= spec_random_bounds(s, axis).1)
            &&& pl.position == position_result(#[trigger] spec_position(s, axis, pick))
        }
}

/// The position of the active window on `axis`, with the random position drawn when one is needed.
pub fn position(s: &Session, axis: Axis) -> (r: Placement)
    ensures
        spec_placement_ok(r, *s, axis),
{
    let pick: i32 = if needs_random(s) {
        let f = frame(s, axis);
        let lo = f.min_point;
        let hi = f.max_point + 2 * f.window_offset;
        if lo > hi {
            random_in(hi, lo)
        } else {
            random_in(lo, hi)
        }
    } else {
        0
    };
    let r = position_with_pick(s, axis, pick);
    assert(r.position == position_result(spec_position(*s, axis, pick as int)));
    r
}

/// The session with the count system changed.
pub open spec fn with_count_system(s: Session, cs: CountSystem) -> Session {
    Session { params: Parameters { count_system: cs, ..s.params }, ..s }
}

/// Both coordinates of the active window; once both are known, later placements count
/// from the window's own position.
pub fn window_position(s: &mut Session) -> (r: (Placement, Option<Placement>))
    ensures
        spec_placement_ok(r.0, *old(s), Axis::X),
        r.0.position is Ok <==> r.1 is Some,
        r.1 matches Some(py) ==> spec_placement_ok(py, *old(s), Axis::Y),
        *final(s) == (if r.1 matches Some(py) && py.position is Ok {
            with_count_system(*old(s), CountSystem::Position)
        } else {
            *old(s)
        }),
{
    let px = position(s, Axis::X);
    if px.position.is_err() {
        return (px, None);
    }
    let py = position(s, Axis::Y);
    if py.position.is_ok() {
        s.params.count_system = CountSystem::Position;
    }
    (px, Some(py))
}

/// The position on `axis` as text, empty when there is none.
pub fn origin_position(s: &Session, axis: Axis) -> (r: (String, Vec<TagCommand>))
    ensures
        exists|pick: int|
            {
                &&& (spec_needs_random(*s) ==> spec_random_bounds(*s, axis).0 <= pick
                    <= spec_random_bounds(*s, axis).1)
                &&& r.0@ == match position_result(#[trigger] spec_position(*s, axis, pick)) {
                    Ok(v) => spec_decimal(v as int),
                    Err(_) => Seq::<char>::empty(),
                }
            },
        r.1@ == spec_position_tags(*s, axis),
{
    let pl = position(s, axis);
    let text = match pl.position {
        Ok(v) => decimal(v),
        Err(_) => String::new(),
    };
    (text, pl.tags)
}

/// Law: without `--at`, a window whose size fits the area is placed inside it.
pub proof fn lemma_position_inside(s: Session, axis: Axis, pick: int)
    requires
        s.params.at is None,
        spec_candidate(s, axis, pick) is Some,
        spec_min_point(s, axis) - 2 * spec_window_offset(s, axis) <= spec_max_point(s, axis),
    ensures
        spec_position(s, axis, pick) matches Some(p) && spec_min_point(s, axis) <= p && p - 2
            * spec_window_offset(s, axis) <= spec_max_point(s, axis),
{
}

/// Law: `close` and `far` put the window in one of the two corners of the axis.
pub proof fn lemma_corner(min_point: int, max_point: int, resolution: int, cursor_pos: int, window_size: int)
    ensures
        spec_move_to_corner(min_point, max_point, resolution, cursor_pos, window_size) == min_point
            || spec_move_to_corner(min_point, max_point, resolution, cursor_pos, window_size)
            == max_point - window_size,
{
}

/// Law: the random position lies between the ends of the area.
pub proof fn lemma_random_bounds_ordered(s: Session, axis: Axis)
    ensures
        spec_random_bounds(s, axis).0 <= spec_random_bounds(s, axis).1,
{
}

/// Law: once the window is open, `--at` puts it exactly where it asks.
pub proof fn lemma_at_is_kept(s: Session, axis: Axis, pick: int)
    requires
        s.params.at is Some,
        s.params.count_system == CountSystem::Position,
    ensures
        spec_position(s, axis, pick) == Some(s.params.at.unwrap().at(axis) as int),
{
}

/// Law: `center` leaves as much room on each side of a window that fits, to within a pixel.
pub proof fn lemma_center_is_centred(s: Session, axis: Axis, pick: int)
    requires
        s.params.at is None,
        s.params.position == PositionArg::Center,
        spec_min_point(s, axis) - 2 * spec_window_offset(s, axis) <= spec_max_point(s, axis),
    ensures
        spec_position(s, axis, pick) matches Some(p) && {
            let low_room = p - spec_min_point(s, axis);
            let high_room = spec_max_point(s, axis) - (p - 2 * spec_window_offset(s, axis));
            -1 <= low_room - high_room <= 1
        },
{
}

/// The area a window may take on `axis`, from the session's own fields: the monitor's extent,
/// counted from its low edge before the window opens, less the paddings when they are detected.
pub open spec fn area_bounds(s: Session, axis: Axis) -> (int, int) {
    let m = s.monitor.axis_data.at(axis);
    let off: int = if s.params.count_system == CountSystem::Origin {
        m.min_point as int
    } else {
        0
    };
    let pl: int = if s.config.detect_padding {
        s.layers.at(axis).padding_min as int
    } else {
        0
    };
    let ph: int = if s.config.detect_padding {
        s.layers.at(axis).padding_max as int
    } else {
        0
    };
    (m.min_point - off + pl, m.max_point - off - ph)
}

/// Whether a position puts the window against the low end of `axis` (left, top).
pub open spec fn at_low_side(p: PositionArg, axis: Axis) -> bool {
    match axis {
        Axis::X => p == PositionArg::Left || p == PositionArg::TopLeft || p == PositionArg::BottomLeft,
        Axis::Y => p == PositionArg::Top || p == PositionArg::TopLeft || p == PositionArg::TopRight,
    }
}

/// Whether a position puts the window against the high end of `axis` (right, bottom).
pub open spec fn at_high_side(p: PositionArg, axis: Axis) -> bool {
    match axis {
        Axis::X => p == PositionArg::Right || p == PositionArg::TopRight || p == PositionArg::BottomRight,
        Axis::Y => p == PositionArg::Bottom || p == PositionArg::BottomLeft || p
            == PositionArg::BottomRight,
    }
}

/// Law: without `--at`, a window that fits the area and is sent to a side lies against it:
/// its low edge on the low end for `left`/`top` and the corners on that side, its high edge
/// on the high end for `right`/`bottom` and the corners on that side.
pub proof fn lemma_sides_of_the_area(s: Session, axis: Axis, pick: int)
    requires
        s.params.at is None,
        area_bounds(s, axis).0 - 2 * spec_window_offset(s, axis) <= area_bounds(s, axis).1,
    ensures
        at_low_side(s.params.position, axis) ==> spec_position(s, axis, pick) == Some(
            area_bounds(s, axis).0,
        ),
        at_high_side(s.params.position, axis) ==> (spec_position(s, axis, pick) matches Some(p)
            && p - 2 * spec_window_offset(s, axis) == area_bounds(s, axis).1),
{
}

/// Law: without `--at`, `cursor` centres the window on the cursor whenever that keeps it inside
/// the area, and otherwise puts it against the end of the area it would cross.
pub proof fn lemma_cursor_centres_on_cursor(s: Session, axis: Axis, pick: int)
    requires
        s.params.at is None,
        s.params.position == PositionArg::Cursor,
        area_bounds(s, axis).0 - 2 * spec_window_offset(s, axis) <= area_bounds(s, axis).1,
    ensures
        ({
            let off: int = if s.params.count_system == CountSystem::Origin {
                s.monitor.axis_data.at(axis).min_point as int
            } else {
                0
            };
            let size = -2 * spec_window_offset(s, axis);
            let centred = s.client.axis_data.at(axis).cursor_pos - off - size / 2;
            let (low, high) = area_bounds(s, axis);
            spec_position(s, axis, pick) matches Some(p) && (if centred <= low {
                p == low
            } else if centred + size >= high {
                p == high - size
            } else {
                p == centred
            })
        }),
{
}

} // verus!
