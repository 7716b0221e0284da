//! The geometry of the monitor and of the active window, as the tools keep it.
use vstd::prelude::*;
use crate::arith::fits_i16;
use crate::structs::{ClientAxisData, FromClient, MonitorAxisData, MonitorData, PerAxis};

verus! {

/// The extent of the active monitor on both axes. Coordinates are held as `i16`, as the
/// window positions are.
pub fn monitor_data(x: i32, y: i32, width: u16, height: u16, name: String) -> (r: MonitorData)
    requires
        fits_i16((x as i16) + (width as i16)),
        fits_i16((y as i16) + (height as i16)),
    ensures
        r.axis_data.x == (MonitorAxisData {
            min_point: x as i16,
            max_point: ((x as i16) + (width as i16)) as i16,
            resolution: width,
        }),
        r.axis_data.y == (MonitorAxisData {
            min_point: y as i16,
            max_point: ((y as i16) + (height as i16)) as i16,
            resolution: height,
        }),
        r.name == name,
{
    let mx = x as i16;
    let my = y as i16;
    MonitorData {
        axis_data: PerAxis {
            x: MonitorAxisData { min_point: mx, max_point: mx + width as i16, resolution: width },
            y: MonitorAxisData { min_point: my, max_point: my + height as i16, resolution: height },
        },
        name,
    }
}

/// The plain data of a window as Hyprland reports it.
#[derive(Debug)]
pub struct WindowReport {
    pub at: (i16, i16),
    pub size: (i16, i16),
    pub tags: Vec<String>,
    pub address: String,
    pub class: String,
    pub monitor: String,
    pub floating: bool,
    pub fullscreen: bool,
}

/// What the tools know of the active window and the cursor.
pub fn client_data(w: WindowReport, cursor: (i64, i64)) -> (r: FromClient)
    ensures
        r.axis_data.x == (ClientAxisData {
            window_pos: w.at.0,
            window_size: w.size.0,
            cursor_pos: cursor.0 as i16,
        }),
        r.axis_data.y == (ClientAxisData {
            window_pos: w.at.1,
            window_size: w.size.1,
            cursor_pos: cursor.1 as i16,
        }),
        r.tags == w.tags,
        r.address == w.address,
        r.class == w.class,
        r.monitor == w.monitor,
        r.floating == w.floating,
        r.fullscreen == w.fullscreen,
{
    FromClient {
        axis_data: PerAxis {
            x: ClientAxisData {
                window_pos: w.at.0,
                window_size: w.size.0,
                cursor_pos: cursor.0 as i16,
            },
            y: ClientAxisData {
                window_pos: w.at.1,
                window_size: w.size.1,
                cursor_pos: cursor.1 as i16,
            },
        },
        tags: w.tags,
        address: w.address,
        class: w.class,
        monitor: w.monitor,
        floating: w.floating,
        fullscreen: w.fullscreen,
    }
}

/// What the daemon knows of the configuration it read: when the file was last changed, and
/// the monitor it was read for.
#[derive(Clone, Copy, Debug, PartialEq, Eq, Structural)]
pub struct ConfigStamp {
    pub modified_secs: u64,
    pub modified_nanos: u32,
    pub monitor: i128,
}

/// The stamp before any configuration is read.
pub fn initial_stamp() -> (r: ConfigStamp)
    ensures
        r == (ConfigStamp { modified_secs: 0, modified_nanos: 0, monitor: 0 }),
{
    ConfigStamp { modified_secs: 0, modified_nanos: 0, monitor: 0 }
}

/// Whether the daemon reads the configuration again: the file has changed, or the active
/// monitor has.
pub fn config_changed(last: &ConfigStamp, current: &ConfigStamp) -> (r: bool)
    ensures
        r == (*last != *current),
{
    last.modified_secs != current.modified_secs || last.modified_nanos != current.modified_nanos
        || last.monitor != current.monitor
}

/// The bytes that are not zero, in order.
pub open spec fn spec_remove_zeros(buf: Seq<u8>) -> Seq<u8> {
    buf.filter(|b: u8| b != 0)
}

/// The bytes of a message, without the zeros that fill the rest of its buffer.
pub fn remove_zeros(buf: &Vec<u8>) -> (r: Vec<u8>)
    ensures
        r@ == spec_remove_zeros(buf@),
{
    let mut out: Vec<u8> = Vec::new();
    let mut i: usize = 0;
    while i < buf.len()
        invariant
            i <= buf@.len(),
            out@ == spec_remove_zeros(buf@.take(i as int)),
        decreases buf@.len() - i,
    {
        proof {
            reveal_with_fuel(Seq::<u8>::filter, 1);
            assert(buf@.take(i + 1).drop_last() =~= buf@.take(i as int));
        }
        if buf[i] != 0 {
            out.push(buf[i]);
        }
        i = i + 1;
    }
    assert(buf@.take(buf@.len() as int) =~= buf@);
    out
}

} // verus!
