//! Paddings from the bars on the screen: a bar along an edge widens the padding of that edge.
use vstd::prelude::*;
use crate::arith::{div_trunc, fits_i16};
use crate::structs::{Config, MonitorData, Paddings, PerAxis};
use crate::text::{contains_text, spec_contains};

verus! {

/// A layer surface on the monitor: its namespace and its rectangle.
#[derive(Clone, Debug)]
pub struct LayerRect {
    pub namespace: String,
    pub x: i32,
    pub y: i32,
    pub w: i16,
    pub h: i16,
}

/// What `str::to_lowercase` gives for a text.
pub uninterp spec fn spec_lowercase(s: Seq<char>) -> Seq<char>;

/// Calls `str::to_lowercase`; the result is named by `spec_lowercase`, a function of the
/// text alone. Nothing more is claimed of the Unicode case mapping.
#[verifier::external_body]
fn lowercase(s: &str) -> (r: String)
    ensures
        r@ == spec_lowercase(s@),
{
    s.to_lowercase()
}

/// A bar at `pos` of length `param` along an axis of extent `screen` widens the low edge when
/// it lies in the low half and reaches past it, else the high edge when it leaves less room.
pub open spec fn spec_compare_layers(screen: int, edges: (int, int), param: int, pos: int) -> (
    int,
    int,
) {
    if screen - pos > div_trunc(screen, 2) && pos + param > edges.0 {
        (param + pos, edges.1)
    } else if screen - pos > edges.1 {
        (edges.0, screen - pos)
    } else {
        edges
    }
}

pub fn compare_layers(screen: i16, edges: (i32, i32), param: i16, pos: i16) -> (r: (i32, i32))
    requires
        -0x10000 <= edges.0 <= 0x10000,
        -0x10000 <= edges.1 <= 0x10000,
    ensures
        (r.0 as int, r.1 as int) == spec_compare_layers(
            screen as int,
            (edges.0 as int, edges.1 as int),
            param as int,
            pos as int,
        ),
        -0x10000 <= r.0 <= 0x10000,
        -0x10000 <= r.1 <= 0x10000,
{
    let screen = screen as i32;
    let param = param as i32;
    let pos = pos as i32;
    if screen - pos > screen / 2 && pos + param > edges.0 {
        (param + pos, edges.1)
    } else if screen - pos > edges.1 {
        (edges.0, screen - pos)
    } else {
        edges
    }
}

/// Whether a layer is a bar: its namespace names a bar and it spans more than a tenth of the screen.
pub open spec fn spec_is_bar(l: LayerRect, width: u16, height: u16) -> bool {
    spec_contains(spec_lowercase(l.namespace@), seq!['b', 'a', 'r']) && (l.w > width as int / 10
        || l.h > height as int / 10)
}

/// The edges taken by the bars among `layers`, one after the other: an upright bar
/// counts on the x-axis, a lying one on the y-axis.
pub open spec fn spec_edges(layers: Seq<LayerRect>, width: u16, height: u16) -> ((int, int), (
    int,
    int,
))
    decreases layers.len(),
{
    if layers.len() == 0 {
        ((0, 0), (0, 0))
    } else {
        let (xe, ye) = spec_edges(layers.drop_last(), width, height);
        let l = layers.last();
        if !spec_is_bar(l, width, height) {
            (xe, ye)
        } else if l.w < l.h {
            (spec_compare_layers((width as i16) as int, xe, l.w as int, (l.x as i16) as int), ye)
        } else if l.w > l.h {
            (xe, spec_compare_layers((height as i16) as int, ye, l.h as int, (l.y as i16) as int))
        } else {
            (xe, ye)
        }
    }
}

/// Whether bars are looked for at all.
pub open spec fn spec_needs_layers(conf: Config) -> bool {
    conf.detect_bars && conf.detect_padding
}

pub fn needs_layers(conf: &Config) -> (r: bool)
    ensures
        r == spec_needs_layers(*conf),
{
    conf.detect_bars && conf.detect_padding
}

/// The paddings of each axis: the configured ones, widened by the bars.
pub open spec fn spec_layer_paddings(conf: Config, monitor: MonitorData, layers: Seq<LayerRect>) -> (
    (int, int),
    (int, int),
) {
    let (xe, ye) = if spec_needs_layers(conf) {
        spec_edges(layers, monitor.axis_data.x.resolution, monitor.axis_data.y.resolution)
    } else {
        ((0, 0), (0, 0))
    };
    let cx = conf.axis_data.x;
    let cy = conf.axis_data.y;
    (
        (xe.0 + cx.padding_min, xe.1 + cx.padding_max),
        (ye.0 + cy.padding_min, ye.1 + cy.padding_max),
    )
}

/// The paddings as they are handed out, when they fit the coordinate type.
pub open spec fn paddings_result(p: ((int, int), (int, int))) -> Option<PerAxis<Paddings>> {
    if fits_i16(p.0.0) && fits_i16(p.0.1) && fits_i16(p.1.0) && fits_i16(p.1.1) {
        Some(
            PerAxis {
                x: Paddings { padding_min: p.0.0 as i16, padding_max: p.0.1 as i16 },
                y: Paddings { padding_min: p.1.0 as i16, padding_max: p.1.1 as i16 },
            },
        )
    } else {
        None
    }
}

fn is_bar(l: &LayerRect, width: u16, height: u16) -> (r: bool)
    ensures
        r == spec_is_bar(*l, width, height),
{
    let lower = lowercase(l.namespace.as_str());
    proof {
        reveal_strlit("bar");
    }
    let bar = "bar";
    assert(bar@ =~= seq!['b', 'a', 'r']);
    contains_text(lower.as_str(), bar) && (l.w as i32 > (width / 10) as i32 || l.h as i32 > (height
        / 10) as i32)
}

proof fn lemma_edges_bounded(layers: Seq<LayerRect>, width: u16, height: u16)
    ensures
        ({
            let (xe, ye) = spec_edges(layers, width, height);
            0 <= xe.0 <= 0x10000 && 0 <= xe.1 <= 0x10000 && 0 <= ye.0 <= 0x10000 && 0 <= ye.1
                <= 0x10000
        }),
    decreases layers.len(),
{
    if layers.len() > 0 {
        lemma_edges_bounded(layers.drop_last(), width, height);
    }
}

/// The paddings of each axis, from the configuration and the layers of the monitor.
pub fn layers_data(conf: &Config, monitor: &MonitorData, layers: &Vec<LayerRect>) -> (r: Option<
    PerAxis<Paddings>,
>)
    ensures
        r == paddings_result(spec_layer_paddings(*conf, *monitor, layers@)),
{
    let width = monitor.axis_data.x.resolution;
    let height = monitor.axis_data.y.resolution;
    let mut xe: (i32, i32) = (0, 0);
    let mut ye: (i32, i32) = (0, 0);
    if needs_layers(conf) {
        let mut i: usize = 0;
        while i < layers.len()
            invariant
                i <= layers.len(),
                width == monitor.axis_data.x.resolution,
                height == monitor.axis_data.y.resolution,
                ((xe.0 as int, xe.1 as int), (ye.0 as int, ye.1 as int)) == spec_edges(
                    layers@.take(i as int),
                    width,
                    height,
                ),
            decreases layers.len() - i,
        {
            proof {
                lemma_edges_bounded(layers@.take(i as int), width, height);
                assert(layers@.take(i + 1).drop_last() =~= layers@.take(i as int));
            }
            let l = &layers[i];
            if is_bar(l, width, height) {
                if l.w < l.h {
                    xe = compare_layers(width as i16, xe, l.w, l.x as i16);
                } else if l.w > l.h {
                    ye = compare_layers(height as i16, ye, l.h, l.y as i16);
                }
            }
            i = i + 1;
        }
        assert(layers@.take(layers.len() as int) =~= layers@);
        proof {
            lemma_edges_bounded(layers@, width, height);
        }
    }
    let cx = conf.axis_data.x;
    let cy = conf.axis_data.y;
    let px0 = xe.0 + cx.padding_min as i32;
    let px1 = xe.1 + cx.padding_max as i32;
    let py0 = ye.0 + cy.padding_min as i32;
    let py1 = ye.1 + cy.padding_max as i32;
    let lo = i16::MIN as i32;
    let hi = i16::MAX as i32;
    if lo <= px0 && px0 <= hi && lo <= px1 && px1 <= hi && lo <= py0 && py0 <= hi && lo <= py1
        && py1 <= hi {
        Some(
            PerAxis {
                x: Paddings { padding_min: px0 as i16, padding_max: px1 as i16 },
                y: Paddings { padding_min: py0 as i16, padding_max: py1 as i16 },
            },
        )
    } else {
        None
    }
}

/// Law: reading one more layer never narrows an edge taken by the bars read before it.
pub proof fn lemma_edges_only_grow(layers: Seq<LayerRect>, l: LayerRect, width: u16, height: u16)
    ensures
        ({
            let (xe, ye) = spec_edges(layers, width, height);
            let (xe2, ye2) = spec_edges(layers.push(l), width, height);
            &&& xe2.0 >= xe.0
            &&& xe2.1 >= xe.1
            &&& ye2.0 >= ye.0
            &&& ye2.1 >= ye.1
        }),
{
    assert(layers.push(l).drop_last() =~= layers);
    assert(layers.push(l).last() == l);
}

/// Law: bars only widen the paddings; each padding is at least the configured one.
pub proof fn lemma_bars_only_widen(conf: Config, monitor: MonitorData, layers: Seq<LayerRect>)
    ensures
        ({
            let p = spec_layer_paddings(conf, monitor, layers);
            &&& p.0.0 >= conf.axis_data.x.padding_min
            &&& p.0.1 >= conf.axis_data.x.padding_max
            &&& p.1.0 >= conf.axis_data.y.padding_min
            &&& p.1.1 >= conf.axis_data.y.padding_max
        }),
{
    lemma_edges_bounded(layers, monitor.axis_data.x.resolution, monitor.axis_data.y.resolution);
}

} // verus!
