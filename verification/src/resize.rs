//! Resizing the active window on one axis: how much it grows or shrinks, where it moves,
//! and how it sticks to the borders of the working area.
use vstd::prelude::*;
use crate::arith::{div_trunc, fits_i16, round_halves, spec_round_halves};
use crate::args::ResizeactiveArgs;
use crate::structs::{Axis, Config, FromClient, Session, StickTag, TagCommand, TagSet};
use crate::tags::{axis_tags, push_tag_it, spec_axis_tags, spec_tag_it};

verus! {

/// The state of a resize on one axis: the window, the bounds it sticks to, its stick tags
/// and the tag commands issued so far.
pub struct Sizing {
    pub pos: i32,
    pub size: i32,
    pub pmin: i32,
    pub pmax: i32,
    pub tags: TagSet,
    pub cmds: Vec<TagCommand>,
}

/// The same state over the integers.
pub struct SpecSizing {
    pub pos: int,
    pub size: int,
    pub pmin: int,
    pub pmax: int,
    pub tags: TagSet,
    pub cmds: Seq<TagCommand>,
}

pub open spec fn sizing_view(z: Sizing) -> SpecSizing {
    SpecSizing {
        pos: z.pos as int,
        size: z.size as int,
        pmin: z.pmin as int,
        pmax: z.pmax as int,
        tags: z.tags,
        cmds: z.cmds@,
    }
}

/// The inputs of a resize on one axis that are not part of the session.
#[derive(Clone, Copy, Debug)]
pub struct ResizeRequest {
    pub axis: Axis,
    /// The change of size asked for, in pixels.
    pub resize: i16,
    /// The smallest size configured for the window's class.
    pub minimal_size: u16,
    /// Set the size exactly rather than change it.
    pub exact: bool,
    /// The stick tags the window carries on this axis.
    pub tags: TagSet,
}

/// The smallest size a window shrinks to: the configured one when it exceeds 20 pixels.
pub open spec fn spec_minimal(m: u16) -> int {
    if 20 < m && m <= i16::MAX {
        m as int
    } else {
        20
    }
}

/// The low border of the working area.
pub open spec fn spec_low_border(s: Session, axis: Axis) -> int {
    s.monitor.axis_data.at(axis).min_point + s.layers.at(axis).padding_min
}

/// The high border of the working area.
pub open spec fn spec_high_border(s: Session, axis: Axis) -> int {
    s.monitor.axis_data.at(axis).max_point - s.layers.at(axis).padding_max
}

/// The stick tags the window starts with: from its place when sticking is on, else its own.
pub open spec fn spec_start_tags(s: Session, q: ResizeRequest) -> TagSet {
    let c = s.client.axis_data.at(q.axis);
    let lo = spec_low_border(s, q.axis);
    let hi = spec_high_border(s, q.axis);
    if s.config.detect_padding && s.config.stick_to_borders && c.window_size < hi - lo {
        if c.window_pos <= lo {
            TagSet::only_spec(StickTag::Min)
        } else if c.window_pos + c.window_size >= hi {
            TagSet::only_spec(StickTag::Max)
        } else {
            TagSet::only_spec(StickTag::NoStick)
        }
    } else {
        q.tags
    }
}

/// The resize, turned round for a window stuck to the high border when the configuration asks so.
pub open spec fn spec_turned_resize(s: Session, q: ResizeRequest) -> int {
    let c = s.client.axis_data.at(q.axis);
    let conf = s.config;
    let t = spec_start_tags(s, q);
    if s.client.floating && conf.detect_padding && conf.invert_resize_in_stick_mode
        && conf.stick_to_borders && !conf.resize_through_borders && !q.exact && c.window_pos
        + c.window_size >= spec_high_border(s, q.axis) && !t.min && !t.no_stick {
        -(q.resize as int)
    } else {
        q.resize as int
    }
}

/// The margin kept from the borders: the configured one, at most the resize.
pub open spec fn spec_margin(s: Session, q: ResizeRequest) -> int {
    let m = if s.config.stick_to_borders {
        s.config.axis_data.at(q.axis).margin as int
    } else {
        0
    };
    let r = spec_turned_resize(s, q);
    if m > r {
        r
    } else {
        m
    }
}

/// The resize after a shrink is stopped at the minimal size.
pub open spec fn spec_resize(s: Session, q: ResizeRequest) -> int {
    let ss = s.client.axis_data.at(q.axis).window_size as int;
    let r = spec_turned_resize(s, q);
    let minimal = spec_minimal(q.minimal_size);
    if (ss <= minimal || ss + r <= minimal) && r < 0 && !q.exact {
        minimal - ss
    } else {
        r
    }
}

/// The width of the working area less the margin.
pub open spec fn spec_working_area(s: Session, q: ResizeRequest) -> int {
    spec_high_border(s, q.axis) - spec_low_border(s, q.axis) - spec_margin(s, q)
}

/// The window once the resize is applied, kept inside the working area when padding is detected.
pub open spec fn spec_resized(s: Session, q: ResizeRequest) -> SpecSizing {
    let c = s.client.axis_data.at(q.axis);
    let sp = c.window_pos as int;
    let ss = c.window_size as int;
    let r = spec_resize(s, q);
    let minimal = spec_minimal(q.minimal_size);
    let std = s.config.standard_resize;
    let (pos, size) = if -r > ss {
        (
            if !std {
                spec_round_halves(2 * sp + ss - minimal)
            } else {
                sp
            },
            minimal,
        )
    } else {
        (
            if !std {
                spec_round_halves(2 * sp - r)
            } else {
                sp
            },
            ss + r,
        )
    };
    let lo = spec_low_border(s, q.axis);
    let hi = spec_high_border(s, q.axis);
    let wa = spec_working_area(s, q);
    let (pos, size) = if s.config.detect_padding && size >= wa && !q.exact {
        (lo, wa)
    } else {
        (pos, size)
    };
    SpecSizing { pos, size, pmin: lo, pmax: hi, tags: spec_start_tags(s, q), cmds: seq![] }
}

/// A window without a stick turns to the border it has reached.
pub open spec fn spec_retag(s: Session, q: ResizeRequest, z: SpecSizing) -> SpecSizing {
    let conf = s.config;
    let wa = spec_working_area(s, q);
    if z.tags.no_stick && conf.detect_padding && conf.stick_to_borders
        && !conf.resize_through_borders {
        if z.pos <= z.pmin && z.pos + z.size < z.pmax && z.size < wa {
            SpecSizing { tags: TagSet::only_spec(StickTag::Min), ..z }
        } else if z.pos + z.size >= z.pmax && z.pos > z.pmin {
            SpecSizing { tags: TagSet::only_spec(StickTag::Max), ..z }
        } else {
            z
        }
    } else {
        z
    }
}

/// The state once the window is stuck to `anchor`.
pub open spec fn spec_stick(s: Session, q: ResizeRequest, z: SpecSizing, anchor: StickTag) -> SpecSizing {
    SpecSizing {
        tags: TagSet::only_spec(anchor),
        cmds: z.cmds + spec_tag_it(s.config, q.axis, anchor),
        ..z
    }
}

/// The stick decision once the size is known.
pub open spec fn spec_decide_stick(s: Session, q: ResizeRequest, z: SpecSizing) -> SpecSizing {
    let conf = s.config;
    let c = s.client.axis_data.at(q.axis);
    let sp = c.window_pos as int;
    let ss = c.window_size as int;
    let wa = spec_working_area(s, q);
    if (z.pos < z.pmin && z.pos + z.size > z.pmax) || (z.size == wa && !z.tags.min
        && !z.tags.max) {
        spec_stick(s, q, z, StickTag::NoStick)
    } else if conf.detect_padding && !conf.resize_through_borders {
        if conf.stick_to_borders {
            if !z.tags.no_stick {
                if (z.pos <= z.pmin || sp <= z.pmin) && !z.tags.max {
                    spec_stick(s, q, z, StickTag::Min)
                } else if (z.pos + z.size >= z.pmax || sp + ss >= z.pmax) && !z.tags.min {
                    spec_stick(s, q, z, StickTag::Max)
                } else {
                    z
                }
            } else {
                z
            }
        } else {
            spec_stick(s, q, z, StickTag::NoStick)
        }
    } else {
        z
    }
}

/// An exact size that fills the working area sticks to the nearer border.
pub open spec fn spec_exact_fill(s: Session, q: ResizeRequest, z: SpecSizing) -> SpecSizing {
    let conf = s.config;
    let c = s.client.axis_data.at(q.axis);
    let sp = c.window_pos as int;
    let ss = c.window_size as int;
    if q.exact && conf.detect_padding && !conf.resize_through_borders && z.size
        >= spec_working_area(s, q) {
        let full = z.pmax - z.pmin;
        let dmin = sp - z.pmin;
        let dmax0 = z.pmax - (sp + ss);
        let dmax = if dmin - dmax0 == 1 || dmax0 - dmin == 1 {
            dmax0 - 1
        } else {
            dmax0
        };
        if z.size == full {
            SpecSizing { pos: z.pmin, ..spec_stick(s, q, z, StickTag::NoStick) }
        } else if dmin < dmax {
            SpecSizing {
                pmax: sp + ss + spec_resize(s, q),
                ..spec_stick(s, q, z, StickTag::Min)
            }
        } else if dmax < dmin {
            SpecSizing { pmin: sp - spec_resize(s, q), ..spec_stick(s, q, z, StickTag::Max) }
        } else {
            SpecSizing {
                pos: if z.size > full {
                    z.pmin + div_trunc(full - z.size, 2)
                } else {
                    z.pmin
                },
                ..spec_stick(s, q, z, StickTag::NoStick)
            }
        }
    } else {
        z
    }
}

/// The final position: against the border the window sticks to, or kept inside.
pub open spec fn spec_settle(s: Session, q: ResizeRequest, z: SpecSizing) -> SpecSizing {
    let conf = s.config;
    let wa = spec_working_area(s, q);
    if conf.detect_padding && !conf.resize_through_borders {
        if !z.tags.no_stick && conf.stick_to_borders {
            if z.tags.min && !z.tags.max {
                SpecSizing { pos: z.pmin, ..z }
            } else if z.tags.max {
                SpecSizing { pos: z.pmax - z.size, ..z }
            } else {
                z
            }
        } else {
            if z.size == wa {
                SpecSizing { pos: z.pmin + div_trunc(spec_margin(s, q), 2), ..z }
            } else if z.pos <= z.pmin && !conf.stick_to_borders {
                SpecSizing { pos: z.pmin, ..z }
            } else if z.pos + z.size >= z.pmax && !conf.stick_to_borders {
                SpecSizing { pos: z.pmax - z.size, ..z }
            } else {
                z
            }
        }
    } else {
        z
    }
}

/// The whole resize on one axis.
pub open spec fn spec_move_resize(s: Session, q: ResizeRequest) -> SpecSizing {
    spec_settle(
        s,
        q,
        spec_exact_fill(s, q, spec_decide_stick(s, q, spec_retag(s, q, spec_resized(s, q)))),
    )
}

/// The new position and size of the window on one axis, with the tag commands issued.
#[derive(Debug)]
pub struct MoveResize {
    pub geometry: Option<(i16, i16)>,
    pub tags: Vec<TagCommand>,
}

pub open spec fn sizing_bounded(z: Sizing) -> bool {
    &&& -0x100000 <= z.pos <= 0x100000
    &&& -0x100000 <= z.size <= 0x100000
    &&& -0x40000 <= z.pmin <= 0x40000
    &&& -0x40000 <= z.pmax <= 0x40000
}

fn low_border(s: &Session, axis: Axis) -> (r: i32)
    ensures
        r == spec_low_border(*s, axis),
{
    s.monitor.axis_data.get(axis).min_point as i32 + s.layers.get(axis).padding_min as i32
}

fn high_border(s: &Session, axis: Axis) -> (r: i32)
    ensures
        r == spec_high_border(*s, axis),
{
    s.monitor.axis_data.get(axis).max_point as i32 - s.layers.get(axis).padding_max as i32
}

fn start_tags(s: &Session, q: &ResizeRequest) -> (r: TagSet)
    ensures
        r == spec_start_tags(*s, *q),
{
    let c = s.client.axis_data.get(q.axis);
    let lo = low_border(s, q.axis);
    let hi = high_border(s, q.axis);
    let sp = c.window_pos as i32;
    let ss = c.window_size as i32;
    if s.config.detect_padding && s.config.stick_to_borders && ss < hi - lo {
        if sp <= lo {
            TagSet::only(StickTag::Min)
        } else if sp + ss >= hi {
            TagSet::only(StickTag::Max)
        } else {
            TagSet::only(StickTag::NoStick)
        }
    } else {
        q.tags
    }
}

fn turned_resize(s: &Session, q: &ResizeRequest) -> (r: i32)
    ensures
        r == spec_turned_resize(*s, *q),
        -0x8000 <= r <= 0x8000,
{
    let c = s.client.axis_data.get(q.axis);
    let conf = &s.config;
    let t = start_tags(s, q);
    if s.client.floating && conf.detect_padding && conf.invert_resize_in_stick_mode
        && conf.stick_to_borders && !conf.resize_through_borders && !q.exact && c.window_pos as i32
        + c.window_size as i32 >= high_border(s, q.axis) && !t.min && !t.no_stick {
        -(q.resize as i32)
    } else {
        q.resize as i32
    }
}

fn margin(s: &Session, q: &ResizeRequest) -> (r: i32)
    ensures
        r == spec_margin(*s, *q),
        -0x8000 <= r <= 0x8000,
{
    let m: i32 = if s.config.stick_to_borders {
        s.config.axis_data.get(q.axis).margin as i32
    } else {
        0
    };
    let r = turned_resize(s, q);
    if m > r {
        r
    } else {
        m
    }
}

fn minimal(m: u16) -> (r: i32)
    ensures
        r == spec_minimal(m),
{
    if 20 < m && m <= 0x7fff {
        m as i32
    } else {
        20
    }
}

fn effective_resize(s: &Session, q: &ResizeRequest) -> (r: i32)
    ensures
        r == spec_resize(*s, *q),
        -0x10000 <= r <= 0x10000,
{
    let ss = s.client.axis_data.get(q.axis).window_size as i32;
    let r = turned_resize(s, q);
    let mn = minimal(q.minimal_size);
    if (ss <= mn || ss + r <= mn) && r < 0 && !q.exact {
        mn - ss
    } else {
        r
    }
}

fn working_area(s: &Session, q: &ResizeRequest) -> (r: i32)
    ensures
        r == spec_working_area(*s, *q),
        -0x40000 <= r <= 0x40000,
{
    high_border(s, q.axis) - low_border(s, q.axis) - margin(s, q)
}

fn resized(s: &Session, q: &ResizeRequest) -> (z: Sizing)
    ensures
        sizing_view(z) == spec_resized(*s, *q),
        sizing_bounded(z),
{
    let c = s.client.axis_data.get(q.axis);
    let sp = c.window_pos as i32;
    let ss = c.window_size as i32;
    let r = effective_resize(s, q);
    let mn = minimal(q.minimal_size);
    let std = s.config.standard_resize;
    let mut pos: i32;
    let mut size: i32;
    if -r > ss {
        pos = if !std {
            round_halves(2 * sp + ss - mn)
        } else {
            sp
        };
        size = mn;
    } else {
        pos = if !std {
            round_halves(2 * sp - r)
        } else {
            sp
        };
        size = ss + r;
    }
    let lo = low_border(s, q.axis);
    let hi = high_border(s, q.axis);
    let wa = working_area(s, q);
    if s.config.detect_padding && size >= wa && !q.exact {
        pos = lo;
        size = wa;
    }
    Sizing { pos, size, pmin: lo, pmax: hi, tags: start_tags(s, q), cmds: Vec::new() }
}

fn retag(s: &Session, q: &ResizeRequest, z: Sizing) -> (r: Sizing)
    requires
        sizing_bounded(z),
    ensures
        sizing_view(r) == spec_retag(*s, *q, sizing_view(z)),
        sizing_bounded(r),
{
    let conf = &s.config;
    let wa = working_area(s, q);
    if z.tags.no_stick && conf.detect_padding && conf.stick_to_borders
        && !conf.resize_through_borders {
        if z.pos <= z.pmin && z.pos + z.size < z.pmax && z.size < wa {
            Sizing { tags: TagSet::only(StickTag::Min), ..z }
        } else if z.pos + z.size >= z.pmax && z.pos > z.pmin {
            Sizing { tags: TagSet::only(StickTag::Max), ..z }
        } else {
            z
        }
    } else {
        z
    }
}

fn stick(s: &Session, q: &ResizeRequest, z: Sizing, anchor: StickTag) -> (r: Sizing)
    ensures
        sizing_view(r) == spec_stick(*s, *q, sizing_view(z), anchor),
{
    let mut cmds = z.cmds;
    push_tag_it(&mut cmds, &s.config, q.axis, anchor);
    Sizing { tags: TagSet::only(anchor), cmds, ..z }
}

fn decide_stick(s: &Session, q: &ResizeRequest, z: Sizing) -> (r: Sizing)
    requires
        sizing_bounded(z),
    ensures
        sizing_view(r) == spec_decide_stick(*s, *q, sizing_view(z)),
        sizing_bounded(r),
{
    let conf = &s.config;
    let c = s.client.axis_data.get(q.axis);
    let sp = c.window_pos as i32;
    let ss = c.window_size as i32;
    let wa = working_area(s, q);
    if (z.pos < z.pmin && z.pos + z.size > z.pmax) || (z.size == wa && !z.tags.min
        && !z.tags.max) {
        stick(s, q, z, StickTag::NoStick)
    } else if conf.detect_padding && !conf.resize_through_borders {
        if conf.stick_to_borders {
            if !z.tags.no_stick {
                if (z.pos <= z.pmin || sp <= z.pmin) && !z.tags.max {
                    stick(s, q, z, StickTag::Min)
                } else if (z.pos + z.size >= z.pmax || sp + ss >= z.pmax) && !z.tags.min {
                    stick(s, q, z, StickTag::Max)
                } else {
                    z
                }
            } else {
                z
            }
        } else {
            stick(s, q, z, StickTag::NoStick)
        }
    } else {
        z
    }
}

fn exact_fill(s: &Session, q: &ResizeRequest, z: Sizing) -> (r: Sizing)
    requires
        sizing_bounded(z),
        sizing_view(z).pmin == spec_low_border(*s, q.axis),
        sizing_view(z).pmax == spec_high_border(*s, q.axis),
    ensures
        sizing_view(r) == spec_exact_fill(*s, *q, sizing_view(z)),
        sizing_bounded(r),
{
    let conf = &s.config;
    let c = s.client.axis_data.get(q.axis);
    let sp = c.window_pos as i32;
    let ss = c.window_size as i32;
    if q.exact && conf.detect_padding && !conf.resize_through_borders && z.size >= working_area(
        s,
        q,
    ) {
        let full = z.pmax - z.pmin;
        let dmin = sp - z.pmin;
        let dmax0 = z.pmax - (sp + ss);
        let dmax = if dmin - dmax0 == 1 || dmax0 - dmin == 1 {
            dmax0 - 1
        } else {
            dmax0
        };
        if z.size == full {
            let pmin = z.pmin;
            let st = stick(s, q, z, StickTag::NoStick);
            Sizing { pos: pmin, ..st }
        } else if dmin < dmax {
            let st = stick(s, q, z, StickTag::Min);
            Sizing { pmax: sp + ss + effective_resize(s, q), ..st }
        } else if dmax < dmin {
            let st = stick(s, q, z, StickTag::Max);
            Sizing { pmin: sp - effective_resize(s, q), ..st }
        } else {
            let pos = if z.size > full {
                z.pmin + (full - z.size) / 2
            } else {
                z.pmin
            };
            let st = stick(s, q, z, StickTag::NoStick);
            Sizing { pos, ..st }
        }
    } else {
        z
    }
}

fn settle(s: &Session, q: &ResizeRequest, z: Sizing) -> (r: Sizing)
    requires
        sizing_bounded(z),
    ensures
        sizing_view(r) == spec_settle(*s, *q, sizing_view(z)),
{
    let conf = &s.config;
    let wa = working_area(s, q);
    if conf.detect_padding && !conf.resize_through_borders {
        if !z.tags.no_stick && conf.stick_to_borders {
            if z.tags.min && !z.tags.max {
                Sizing { pos: z.pmin, ..z }
            } else if z.tags.max {
                Sizing { pos: z.pmax - z.size, ..z }
            } else {
                z
            }
        } else {
            if z.size == wa {
                Sizing { pos: z.pmin + margin(s, q) / 2, ..z }
            } else if z.pos <= z.pmin && !conf.stick_to_borders {
                Sizing { pos: z.pmin, ..z }
            } else if z.pos + z.size >= z.pmax && !conf.stick_to_borders {
                Sizing { pos: z.pmax - z.size, ..z }
            } else {
                z
            }
        }
    } else {
        z
    }
}

/// How the geometry of a resize is handed out.
pub open spec fn geometry_result(z: SpecSizing) -> Option<(i16, i16)> {
    if fits_i16(z.pos) && fits_i16(z.size) {
        Some((z.pos as i16, z.size as i16))
    } else {
        None
    }
}

/// The new position and size of the active window on one axis.
pub fn count_move_resize(s: &Session, q: &ResizeRequest) -> (r: MoveResize)
    ensures
        r.geometry == geometry_result(spec_move_resize(*s, *q)),
        r.tags@ == spec_move_resize(*s, *q).cmds,
{
    let z = resized(s, q);
    let z = retag(s, q, z);
    let z = decide_stick(s, q, z);
    let z = exact_fill(s, q, z);
    let z = settle(s, q, z);
    let geometry = if i16::MIN as i32 <= z.pos && z.pos <= i16::MAX as i32 && i16::MIN as i32
        <= z.size && z.size <= i16::MAX as i32 {
        Some((z.pos as i16, z.size as i16))
    } else {
        None
    };
    MoveResize { geometry, tags: z.cmds }
}

/// The change of size on `axis`: with `--exact` the size asked for less the current one.
pub fn get_resize(client: &FromClient, exact: bool, axis: Axis, resize: i16) -> (r: i16)
    requires
        exact ==> fits_i16(resize - client.axis_data.at(axis).window_size),
    ensures
        r == (if exact {
            resize - client.axis_data.at(axis).window_size
        } else {
            resize as int
        }),
{
    if exact {
        resize - client.axis_data.get(axis).window_size
    } else {
        resize
    }
}

/// How the options of `resizeactive` change the configuration; the result says whether the
/// size is set exactly. `--force` resizes through the borders and detects no padding.
pub fn resize_config(args: &ResizeactiveArgs, conf: &mut Config) -> (exact: bool)
    ensures
        exact == args.exact,
        *final(conf) == (Config {
            invert_resize_in_stick_mode: if args.no_invert || args.exact {
                false
            } else {
                old(conf).invert_resize_in_stick_mode
            },
            resize_through_borders: if args.force {
                true
            } else {
                old(conf).resize_through_borders
            },
            detect_padding: if args.force {
                false
            } else {
                old(conf).detect_padding
            },
            ..*old(conf)
        }),
{
    if args.no_invert || args.exact {
        conf.invert_resize_in_stick_mode = false;
    }
    if args.force {
        conf.resize_through_borders = true;
        conf.detect_padding = false;
    }
    args.exact
}

/// What resizing asks Hyprland to do.
#[derive(Debug)]
pub enum ResizePlan {
    /// Move the window to this position, then give it this size.
    Exact { position: (i16, i16), size: (i16, i16) },
    /// Let Hyprland change the size by these amounts.
    Delta(i16, i16),
    /// A coordinate does not fit the coordinate type.
    OutOfRange,
}

/// The request on `axis` for a resize by `resize`.
pub open spec fn axis_request(s: Session, axis: Axis, resize: i16, minimal: u16, exact: bool) -> ResizeRequest {
    ResizeRequest {
        axis,
        resize,
        minimal_size: minimal,
        exact,
        tags: spec_axis_tags(s.client.tags@, axis),
    }
}

/// A floating window is moved and sized on both axes; any other has its size changed by Hyprland.
pub fn plan_resize(s: &Session, exact: bool, resize: (i16, i16), minimal: (u16, u16)) -> (r: (
    ResizePlan,
    Vec<TagCommand>,
))
    ensures
        s.client.floating ==> {
            let zx = spec_move_resize(*s, axis_request(*s, Axis::X, resize.0, minimal.0, exact));
            let zy = spec_move_resize(*s, axis_request(*s, Axis::Y, resize.1, minimal.1, exact));
            &&& r.1@ == zx.cmds + zy.cmds
            &&& match (geometry_result(zx), geometry_result(zy)) {
                (Some((px, sx)), Some((py, sy))) => r.0 == ResizePlan::Exact {
                    position: (px, py),
                    size: (sx, sy),
                },
                _ => r.0 is OutOfRange,
            }
        },
        !s.client.floating ==> r.0 == ResizePlan::Delta(resize.0, resize.1) && r.1@.len() == 0,
{
    if s.client.floating {
        let qx = ResizeRequest {
            axis: Axis::X,
            resize: resize.0,
            minimal_size: minimal.0,
            exact,
            tags: axis_tags(&s.client.tags, Axis::X),
        };
        let qy = ResizeRequest {
            axis: Axis::Y,
            resize: resize.1,
            minimal_size: minimal.1,
            exact,
            tags: axis_tags(&s.client.tags, Axis::Y),
        };
        let mx = count_move_resize(s, &qx);
        let my = count_move_resize(s, &qy);
        let mut tags = mx.tags;
        let mut ty = my.tags;
        tags.append(&mut ty);
        match (mx.geometry, my.geometry) {
            (Some((px, sx)), Some((py, sy))) => (
                ResizePlan::Exact { position: (px, py), size: (sx, sy) },
                tags,
            ),
            _ => (ResizePlan::OutOfRange, tags),
        }
    } else {
        (ResizePlan::Delta(resize.0, resize.1), Vec::new())
    }
}

/// Law: with `--exact`, the window gets the size asked for, whatever the configuration,
/// as long as that size is not negative.
pub proof fn lemma_exact_size(s: Session, q: ResizeRequest)
    requires
        q.exact,
        q.resize + s.client.axis_data.at(q.axis).window_size >= 0,
    ensures
        spec_move_resize(s, q).size == q.resize + s.client.axis_data.at(q.axis).window_size,
{
}

/// Law: without padding detection, a resize that leaves the window above its minimal size
/// changes the size by exactly the amount asked for.
pub proof fn lemma_plain_resize(s: Session, q: ResizeRequest)
    requires
        !s.config.detect_padding,
        !q.exact,
        q.resize + s.client.axis_data.at(q.axis).window_size > spec_minimal(q.minimal_size),
    ensures
        spec_move_resize(s, q).size == q.resize + s.client.axis_data.at(q.axis).window_size,
{
}

/// Law: with padding detection and no exact size, the window never grows past the working area.
pub proof fn lemma_within_working_area(s: Session, q: ResizeRequest)
    requires
        s.config.detect_padding,
        !q.exact,
    ensures
        spec_move_resize(s, q).size <= spec_working_area(s, q),
{
}

/// Law: with padding detection, no exact size and no resizing through the borders, a window
/// whose new size fits between the borders of the working area ends up inside them.
pub proof fn lemma_resized_inside_borders(s: Session, q: ResizeRequest)
    requires
        s.config.detect_padding,
        !s.config.resize_through_borders,
        !q.exact,
        spec_move_resize(s, q).size <= (s.monitor.axis_data.at(q.axis).max_point
            - s.layers.at(q.axis).padding_max) - (s.monitor.axis_data.at(q.axis).min_point
            + s.layers.at(q.axis).padding_min),
    ensures
        ({
            let z = spec_move_resize(s, q);
            let low = s.monitor.axis_data.at(q.axis).min_point + s.layers.at(q.axis).padding_min;
            let high = s.monitor.axis_data.at(q.axis).max_point - s.layers.at(q.axis).padding_max;
            low <= z.pos && z.pos + z.size <= high
        }),
{
}

} // verus!
