//! Moving the active window to a border, or by a named position.
use vstd::prelude::*;
use crate::args::{
    direction_from_name, position_or_any, spec_direction_from_name, spec_position_or_any,
    Direction, MovewindowArgs,
};
use crate::text::str_eq;
use crate::arith::fits_i16;
use crate::structs::{Axis, Config, CountSystem, Parameters, Session, StickTag, TagCommand};
use crate::tags::{spec_tag_it, tag_it};

verus! {

/// The directions that lead to the low and the high end of an axis.
pub open spec fn axis_directions(axis: Axis) -> (Direction, Direction) {
    match axis {
        Axis::X => (Direction::Left, Direction::Right),
        Axis::Y => (Direction::Up, Direction::Down),
    }
}

/// Where moving in `dir` puts the window on `axis`: against the low or the high border,
/// or where it is when `dir` runs along the other axis.
pub open spec fn spec_position_by_direction(s: Session, dir: Direction, axis: Axis) -> int {
    let m = s.monitor.axis_data.at(axis);
    let pads = s.layers.at(axis);
    let c = s.client.axis_data.at(axis);
    if dir == axis_directions(axis).0 {
        m.min_point + pads.padding_min
    } else if dir == axis_directions(axis).1 {
        m.max_point - pads.padding_max - c.window_size
    } else {
        c.window_pos as int
    }
}

/// The tag commands that moving in `dir` issues on `axis`.
pub open spec fn spec_direction_tags(s: Session, dir: Direction, axis: Axis) -> Seq<TagCommand> {
    if dir == axis_directions(axis).0 {
        spec_tag_it(s.config, axis, StickTag::Min)
    } else if dir == axis_directions(axis).1 {
        spec_tag_it(s.config, axis, StickTag::Max)
    } else {
        seq![]
    }
}

/// The position on `axis` after moving in `dir`, `None` when it does not fit the coordinate type.
pub fn position_by_direction(s: &Session, dir: Direction, axis: Axis) -> (r: (Option<i16>, Vec<TagCommand>))
    ensures
        r.0 == (if fits_i16(spec_position_by_direction(*s, dir, axis)) {
            Some(spec_position_by_direction(*s, dir, axis) as i16)
        } else {
            None
        }),
        r.1@ == spec_direction_tags(*s, dir, axis),
{
    let m = s.monitor.axis_data.get(axis);
    let pads = s.layers.get(axis);
    let c = s.client.axis_data.get(axis);
    let (low, high) = match axis {
        Axis::X => (Direction::Left, Direction::Right),
        Axis::Y => (Direction::Up, Direction::Down),
    };
    let (v, tags): (i32, Vec<TagCommand>) = if dir == low {
        (m.min_point as i32 + pads.padding_min as i32, tag_it(&s.config, axis, StickTag::Min))
    } else if dir == high {
        (
            m.max_point as i32 - pads.padding_max as i32 - c.window_size as i32,
            tag_it(&s.config, axis, StickTag::Max),
        )
    } else {
        (c.window_pos as i32, Vec::new())
    };
    let p = if i16::MIN as i32 <= v && v <= i16::MAX as i32 {
        Some(v as i16)
    } else {
        None
    };
    (p, tags)
}

/// What moving the window asks Hyprland to do.
#[derive(Debug)]
pub enum MoveCommand {
    /// Move the window to these coordinates.
    Exact(i16, i16),
    /// Let Hyprland move the window in a direction.
    Direction(Direction),
    /// A coordinate does not fit the coordinate type.
    OutOfRange,
}

/// A floating window with padding detection goes against the border; any other is moved by Hyprland.
pub fn get_direction(s: &Session, dir: Direction) -> (r: (MoveCommand, Vec<TagCommand>))
    ensures
        s.client.floating && s.config.detect_padding ==> {
            let px = spec_position_by_direction(*s, dir, Axis::X);
            let py = spec_position_by_direction(*s, dir, Axis::Y);
            &&& r.1@ == spec_direction_tags(*s, dir, Axis::X) + spec_direction_tags(
                *s,
                dir,
                Axis::Y,
            )
            &&& if fits_i16(px) && fits_i16(py) {
                r.0 matches MoveCommand::Exact(x, y) && x == px && y == py
            } else {
                r.0 is OutOfRange
            }
        },
        !(s.client.floating && s.config.detect_padding) ==> r.0 == MoveCommand::Direction(dir)
            && r.1@.len() == 0,
{
    if s.client.floating && s.config.detect_padding {
        let (px, mut tx) = position_by_direction(s, dir, Axis::X);
        let (py, ty) = position_by_direction(s, dir, Axis::Y);
        let mut ty = ty;
        tx.append(&mut ty);
        match (px, py) {
            (Some(x), Some(y)) => (MoveCommand::Exact(x, y), tx),
            _ => (MoveCommand::OutOfRange, tx),
        }
    } else {
        (MoveCommand::Direction(dir), Vec::new())
    }
}

/// The parameters of a run of `movewindow`; the result says whether the window goes to a
/// position (else it moves in the given direction): it does unless `--position` is `any`.
pub fn movewindow_parameters(args: &MovewindowArgs, conf: &mut Config, params: &mut Parameters) -> (r:
    bool)
    ensures
        r == (args.position@ != "any"@),
        *final(conf) == (if args.force {
            Config { detect_padding: false, ..*old(conf) }
        } else {
            *old(conf)
        }),
        *final(params) == (Parameters {
            position: spec_position_or_any(args.position@),
            count_system: if r {
                CountSystem::Position
            } else {
                old(params).count_system
            },
            ..*old(params)
        }),
{
    if args.force {
        conf.detect_padding = false;
    }
    params.position = position_or_any(args.position.as_str());
    if !str_eq(args.position.as_str(), "any") {
        params.count_system = CountSystem::Position;
        true
    } else {
        false
    }
}

/// The direction `movewindow` is given, or `None` for a text that names none.
pub fn parse_direction(args: &MovewindowArgs) -> (r: Option<Direction>)
    ensures
        r == spec_direction_from_name(args.direction@),
{
    direction_from_name(args.direction.as_str())
}

/// The position to go to when moving in a direction: `min_pos` towards the low end, `max_pos`
/// towards the high end, else where the window starts.
pub fn detect_dir(
    direction: Direction,
    start_pos: i16,
    min_pos: i16,
    max_pos: i16,
    min_direction: Direction,
    max_direction: Direction,
) -> (r: i16)
    ensures
        r == (if direction == min_direction {
            min_pos
        } else if direction == max_direction {
            max_pos
        } else {
            start_pos
        }),
{
    if direction == min_direction {
        min_pos
    } else if direction == max_direction {
        max_pos
    } else {
        start_pos
    }
}

/// Law: moving towards the low end of an axis puts the window's low edge on the low border,
/// moving towards the high end puts its high edge on the high border, and moving along the
/// other axis leaves it where it is.
pub proof fn lemma_moves_to_the_border(s: Session, dir: Direction, axis: Axis)
    ensures
        ({
            let m = s.monitor.axis_data.at(axis);
            let pads = s.layers.at(axis);
            let c = s.client.axis_data.at(axis);
            let p = spec_position_by_direction(s, dir, axis);
            let (low, high) = match axis {
                Axis::X => (Direction::Left, Direction::Right),
                Axis::Y => (Direction::Up, Direction::Down),
            };
            &&& dir == low ==> p == m.min_point + pads.padding_min
            &&& dir == high ==> p + c.window_size == m.max_point - pads.padding_max
            &&& dir != low && dir != high ==> p == c.window_pos
        }),
{
}

} // verus!
