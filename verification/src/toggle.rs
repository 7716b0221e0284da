//! Making the active window float, or tiling it back, and the steps that size and place a
//! window once it floats.
use vstd::prelude::*;
use crate::args::{position_or_any, spec_position_or_any, TogglefloatingArgs};
use crate::structs::{Binary, Config, CountSystem, FromClient, Parameters, PerAxis, Session, SizeParams};
use crate::text::str_eq;

verus! {

/// The parameters of a run of `togglefloating`, and `--force` turning padding detection off.
pub fn togglefloating_parameters(args: &TogglefloatingArgs, conf: &mut Config, params: &mut Parameters)
    requires
        args.size@.len() == 0 || args.size@.len() >= 2,
        args.at@.len() == 0 || args.at@.len() >= 2,
    ensures
        *final(params) == (Parameters {
            binary: Binary::ToggleFloating,
            position: spec_position_or_any(args.position@),
            default_size: args.default_size,
            origin_size: old(params).origin_size || args.default_size || args.size@.len() > 0,
            size: if args.size@.len() > 0 {
                Some(
                    SizeParams {
                        x: Some(args.size@[0] as i16),
                        y: Some(args.size@[1] as i16),
                        origin_x: None,
                        origin_y: None,
                    },
                )
            } else {
                old(params).size
            },
            at: if args.at@.len() > 0 {
                Some(PerAxis { x: args.at@[0], y: args.at@[1] })
            } else {
                old(params).at
            },
            ..*old(params)
        }),
        *final(conf) == (if args.force {
            Config { detect_padding: false, ..*old(conf) }
        } else {
            *old(conf)
        }),
{
    params.binary = Binary::ToggleFloating;
    params.position = position_or_any(args.position.as_str());
    params.default_size = args.default_size;
    if args.default_size {
        params.origin_size = true;
    }
    if args.force {
        conf.detect_padding = false;
    }
    if args.size.len() > 0 {
        params.origin_size = true;
        params.size = Some(SizeParams::of_axes(args.size[0] as i16, args.size[1] as i16));
    }
    if args.at.len() > 0 {
        params.at = Some(PerAxis { x: args.at[0], y: args.at[1] });
    }
}

/// Whether the size of a floating window is remembered before `togglefloating` tiles it.
pub fn records_before_toggle(s: &Session) -> (r: bool)
    ensures
        r == (s.params.binary == Binary::ToggleFloating && s.client.floating
            && !s.params.default_size && !s.config.toggle_to_open_size),
{
    s.params.binary == Binary::ToggleFloating && s.client.floating && !s.params.default_size
        && !s.config.toggle_to_open_size
}

/// Whether the window's floating state is flipped: always by `togglefloating`, and by `exec`
/// when `--tiled` matches the window's state.
pub fn toggles_floating(s: &Session) -> (r: bool)
    ensures
        r == ((s.params.binary == Binary::Open && s.params.tile == s.client.floating)
            || s.params.binary == Binary::ToggleFloating),
{
    (s.params.binary == Binary::Open && s.params.tile == s.client.floating) || s.params.binary
        == Binary::ToggleFloating
}

/// Where the size of a window that now floats comes from.
#[derive(Clone, Copy, Debug, PartialEq, Eq, Structural)]
pub enum SizeSource {
    /// The default size of the configuration.
    Default,
    /// The configuration of the class, or the cache.
    Predefined,
    /// The size the options gave.
    Given,
}

pub fn size_source(p: &Parameters) -> (r: SizeSource)
    ensures
        r == (if p.default_size {
            SizeSource::Default
        } else if !p.size_from_args {
            SizeSource::Predefined
        } else {
            SizeSource::Given
        }),
{
    if p.default_size {
        SizeSource::Default
    } else if !p.size_from_args {
        SizeSource::Predefined
    } else {
        SizeSource::Given
    }
}

/// The default size of the configuration, as the requested size.
pub fn use_default_size(p: &mut Parameters, conf: &Config)
    ensures
        *final(p) == (Parameters {
            size: Some(
                SizeParams {
                    x: Some(conf.axis_data.x.default_size),
                    y: Some(conf.axis_data.y.default_size),
                    origin_x: None,
                    origin_y: None,
                },
            ),
            ..*old(p)
        }),
{
    p.size = Some(SizeParams::of_axes(conf.axis_data.x.default_size, conf.axis_data.y.default_size));
}

/// A size found for the class, as the requested size; one from the cache also counts as
/// given, so that no later step looks it up again.
pub fn use_predefined_size(p: &mut Parameters, size: (i16, i16), from_cache: bool)
    ensures
        *final(p) == (Parameters {
            size: Some(SizeParams { x: Some(size.0), y: Some(size.1), origin_x: None, origin_y: None }),
            size_from_args: old(p).size_from_args || from_cache,
            ..*old(p)
        }),
{
    if from_cache {
        p.size_from_args = true;
    }
    p.size = Some(SizeParams::of_axes(size.0, size.1));
}

/// A size found for the class of a program about to open, as the size before it opens; one
/// from the cache also counts as given.
pub fn use_origin_size(p: &mut Parameters, size: (i16, i16), from_cache: bool)
    ensures
        *final(p) == (Parameters {
            size: Some(SizeParams { x: None, y: None, origin_x: Some(size.0), origin_y: Some(size.1) }),
            size_from_args: old(p).size_from_args || from_cache,
            ..*old(p)
        }),
{
    if from_cache {
        p.size_from_args = true;
    }
    p.size = Some(SizeParams::of_origin(size.0, size.1));
}

/// Whether the size of the window is remembered once `exec` has opened it.
pub fn records_after_open(p: &Parameters) -> (r: bool)
    ensures
        r == (p.binary == Binary::Open),
{
    p.binary == Binary::Open
}

/// From now on the window is placed where it is; the result says whether the tool waits for
/// a window to open (else it polls the active window).
pub fn change_window_state(p: &mut Parameters) -> (waits_for_open: bool)
    ensures
        *final(p) == (Parameters { count_system: CountSystem::Position, ..*old(p) }),
        waits_for_open == (old(p).binary == Binary::Open),
{
    p.count_system = CountSystem::Position;
    p.binary == Binary::Open
}

/// Whether polling the active window has found the window to place: a new one for `exec`,
/// the same one for `togglefloating`.
pub fn poll_found(binary: Binary, start: &String, current: &String) -> (r: bool)
    ensures
        r == ((current@ != start@ && binary == Binary::Open) || (current@ == start@ && binary
            == Binary::ToggleFloating)),
{
    let same = str_eq(current.as_str(), start.as_str());
    (!same && binary == Binary::Open) || (same && binary == Binary::ToggleFloating)
}

/// How many times the active window is polled.
pub const POLL_ROUNDS: u32 = 31;

/// Whether the window that should now float does not: the tool stops there.
pub fn stops_when_tiled(client: &FromClient) -> (r: bool)
    ensures
        r == !client.floating,
{
    !client.floating
}

} // verus!
