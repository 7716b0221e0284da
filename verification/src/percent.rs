//! Sizes written as pixels or as a share of the screen: `50%` of the monitor, `50$` of the
//! area between the paddings.
use vstd::prelude::*;
use crate::structs::{MonitorAxisData, Paddings, SizeValue};
use crate::text::{parse_i32, spec_parse_i32};

verus! {

/// What a share is taken of.
#[derive(Clone, Copy, Debug, PartialEq, Eq, Structural)]
pub enum PercentKind {
    /// `%`: the resolution of the monitor.
    Resolution,
    /// `$`: the resolution less both paddings.
    WorkingArea,
}

/// How a size text reads.
#[derive(Debug)]
pub enum SizeText {
    /// A number of pixels.
    Pixels(i16),
    /// A share: the number before the sign, and what it is a share of.
    Percent(PercentKind, String),
    /// Neither.
    Invalid,
}

/// The share a text asks for: its last character names the kind, the rest is the number.
pub open spec fn spec_percent_suffix(s: Seq<char>) -> Option<(PercentKind, Seq<char>)> {
    if s.len() > 0 && s.last() == '%' {
        Some((PercentKind::Resolution, s.drop_last()))
    } else if s.len() > 0 && s.last() == '$' {
        Some((PercentKind::WorkingArea, s.drop_last()))
    } else {
        None
    }
}

pub fn percent_suffix(s: &str) -> (r: Option<(PercentKind, String)>)
    ensures
        match spec_percent_suffix(s@) {
            Some((k, t)) => r matches Some((k2, t2)) && k2 == k && t2@ == t,
            None => r is None,
        },
{
    let n = s.unicode_len();
    if n == 0 {
        return None;
    }
    let last = s.get_char(n - 1);
    let kind = if last == '%' {
        PercentKind::Resolution
    } else if last == '$' {
        PercentKind::WorkingArea
    } else {
        return None;
    };
    let t = String::from_str(s.substring_char(0, n - 1));
    assert(t@ =~= s@.drop_last());
    Some((kind, t))
}

/// How a size given on the command line reads: an integer first, else a share.
pub fn string_check_percent(value: &String) -> (r: SizeText)
    ensures
        match spec_parse_i32(value@) {
            Some(x) => r == SizeText::Pixels(x as i16),
            None => match spec_percent_suffix(value@) {
                Some((k, t)) => r matches SizeText::Percent(k2, t2) && k2 == k && t2@ == t,
                None => r is Invalid,
            },
        },
{
    match parse_i32(value.as_str()) {
        Some(x) => SizeText::Pixels(x as i16),
        None => match percent_suffix(value.as_str()) {
            Some((k, t)) => SizeText::Percent(k, t),
            None => SizeText::Invalid,
        },
    }
}

/// How a size in the configuration reads: an integer, or a text that is a share.
pub fn value_check_percent(value: &SizeValue) -> (r: SizeText)
    ensures
        match value {
            SizeValue::Integer(i) => r == SizeText::Pixels(*i as i16),
            SizeValue::Text(s) => match spec_percent_suffix(s@) {
                Some((k, t)) => r matches SizeText::Percent(k2, t2) && k2 == k && t2@ == t,
                None => r is Invalid,
            },
            SizeValue::Other => r is Invalid,
        },
{
    match value {
        SizeValue::Integer(i) => SizeText::Pixels(*i as i16),
        SizeValue::Text(s) => match percent_suffix(s.as_str()) {
            Some((k, t)) => SizeText::Percent(k, t),
            None => SizeText::Invalid,
        },
        SizeValue::Other => SizeText::Invalid,
    }
}

/// The number of pixels a share is taken of.
pub fn percent_base(kind: PercentKind, monitor_axis: &MonitorAxisData, pads: &Paddings) -> (r: i32)
    requires
        kind == PercentKind::WorkingArea ==> i16::MIN <= pads.padding_min + pads.padding_max
            <= i16::MAX,
    ensures
        r == (match kind {
            PercentKind::Resolution => monitor_axis.resolution as int,
            PercentKind::WorkingArea => monitor_axis.resolution - (pads.padding_min
                + pads.padding_max),
        }),
{
    match kind {
        PercentKind::Resolution => monitor_axis.resolution as i32,
        PercentKind::WorkingArea => monitor_axis.resolution as i32 - (pads.padding_min
            + pads.padding_max) as i32,
    }
}

} // verus!
