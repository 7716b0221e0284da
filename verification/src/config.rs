//! Reading the `[monitors]` section: choosing the subsection of the active monitor, filling
//! what it leaves out from `[monitors.any]`, and checking that every parameter is there.
use vstd::prelude::*;
use crate::cache::Keyed;
use crate::structs::{Config, ConfigAxisData, PerAxis, PreConfig, SizeValue};

verus! {

/// The parameters of a `[monitors.*]` subsection, by the names the file gives them.
#[derive(Clone, Copy, Debug, PartialEq, Eq, Structural)]
pub enum ConfigParameter {
    Padding,
    DefaultSize,
    DetectPadding,
    DetectBars,
    StandardResize,
    StickToBorders,
    InvertResizeInStickMode,
    ResizeThroughBorders,
    ToggleToOpenSize,
}

impl ConfigParameter {
    pub open spec fn spec_name(self) -> Seq<char> {
        match self {
            ConfigParameter::Padding => "padding"@,
            ConfigParameter::DefaultSize => "default_size"@,
            ConfigParameter::DetectPadding => "detect_padding"@,
            ConfigParameter::DetectBars => "detect_bars"@,
            ConfigParameter::StandardResize => "standard_resize"@,
            ConfigParameter::StickToBorders => "stick_to_borders"@,
            ConfigParameter::InvertResizeInStickMode => "invert_resize_in_stick_mode"@,
            ConfigParameter::ResizeThroughBorders => "resize_through_borders"@,
            ConfigParameter::ToggleToOpenSize => "toggle_to_open_size"@,
        }
    }

    pub fn name(&self) -> (r: &'static str)
        ensures
            r@ == self.spec_name(),
    {
        match self {
            ConfigParameter::Padding => "padding",
            ConfigParameter::DefaultSize => "default_size",
            ConfigParameter::DetectPadding => "detect_padding",
            ConfigParameter::DetectBars => "detect_bars",
            ConfigParameter::StandardResize => "standard_resize",
            ConfigParameter::StickToBorders => "stick_to_borders",
            ConfigParameter::InvertResizeInStickMode => "invert_resize_in_stick_mode",
            ConfigParameter::ResizeThroughBorders => "resize_through_borders",
            ConfigParameter::ToggleToOpenSize => "toggle_to_open_size",
        }
    }
}

/// What is wrong with the configuration.
#[derive(Debug)]
pub enum ConfigError {
    /// Neither the active monitor nor `any` has a subsection.
    NoSubsection(String),
    /// The subsection does not read as one.
    WrongValue(String),
    /// A parameter is missing; the text names the subsections looked at.
    MissingParameter(ConfigParameter, String),
}

impl ConfigError {
    pub open spec fn spec_message(&self) -> Seq<char> {
        match self {
            ConfigError::NoSubsection(id) => "Config Error: no subsection '[monitors.any]' or '[monitors."@
                + id@ + "]''"@,
            ConfigError::WrongValue(sub) => "Config Error: Wrong parameter value in subsection 'monitors."@
                + sub@ + "'"@,
            ConfigError::MissingParameter(p, info) => "Config Error: missing parameter '"@
                + p.spec_name() + "'. Subsection"@ + info@,
        }
    }

    /// The text shown to the user.
    pub fn message(&self) -> (r: String)
        ensures
            r@ == self.spec_message(),
    {
        match self {
            ConfigError::NoSubsection(id) => String::from_str(
                "Config Error: no subsection '[monitors.any]' or '[monitors.",
            ).concat(id.as_str()).concat("]''"),
            ConfigError::WrongValue(sub) => String::from_str(
                "Config Error: Wrong parameter value in subsection 'monitors.",
            ).concat(sub.as_str()).concat("'"),
            ConfigError::MissingParameter(p, info) => String::from_str(
                "Config Error: missing parameter '",
            ).concat(p.name()).concat("'. Subsection").concat(info.as_str()),
        }
    }
}

impl SizeValue {
    /// A copy of the value.
    pub fn dup(&self) -> (r: SizeValue)
        ensures
            r == *self,
    {
        match self {
            SizeValue::Integer(i) => SizeValue::Integer(*i),
            SizeValue::Text(t) => SizeValue::Text(t.clone()),
            SizeValue::Other => SizeValue::Other,
        }
    }
}

fn dup_pair(p: &Option<(SizeValue, SizeValue)>) -> (r: Option<(SizeValue, SizeValue)>)
    ensures
        r == *p,
{
    match p {
        Some((a, b)) => Some((a.dup(), b.dup())),
        None => None,
    }
}

fn dup_four(p: &Option<(SizeValue, SizeValue, SizeValue, SizeValue)>) -> (r: Option<
    (SizeValue, SizeValue, SizeValue, SizeValue),
>)
    ensures
        r == *p,
{
    match p {
        Some((a, b, c, d)) => Some((a.dup(), b.dup(), c.dup(), d.dup())),
        None => None,
    }
}

/// The first of two options that is there.
pub open spec fn or_else<T>(a: Option<T>, b: Option<T>) -> Option<T> {
    match a {
        Some(x) => Some(x),
        None => b,
    }
}

/// Each entry of `a`, or the one of `b` where `a` leaves it out.
pub open spec fn spec_filled(a: PreConfig, b: PreConfig) -> PreConfig {
    PreConfig {
        padding: or_else(a.padding, b.padding),
        default_size: or_else(a.default_size, b.default_size),
        margin: or_else(a.margin, b.margin),
        detect_padding: or_else(a.detect_padding, b.detect_padding),
        detect_bars: or_else(a.detect_bars, b.detect_bars),
        standard_resize: or_else(a.standard_resize, b.standard_resize),
        stick_to_borders: or_else(a.stick_to_borders, b.stick_to_borders),
        invert_resize_in_stick_mode: or_else(
            a.invert_resize_in_stick_mode,
            b.invert_resize_in_stick_mode,
        ),
        resize_through_borders: or_else(a.resize_through_borders, b.resize_through_borders),
        toggle_to_open_size: or_else(a.toggle_to_open_size, b.toggle_to_open_size),
    }
}

impl PreConfig {
    /// Fills each entry left out with the one of `other`.
    pub fn replace_none_values(&mut self, other: &PreConfig)
        ensures
            *final(self) == spec_filled(*old(self), *other),
    {
        if self.padding.is_none() {
            self.padding = dup_four(&other.padding);
        }
        if self.default_size.is_none() {
            self.default_size = dup_pair(&other.default_size);
        }
        if self.margin.is_none() {
            self.margin = dup_pair(&other.margin);
        }
        if self.detect_padding.is_none() {
            self.detect_padding = other.detect_padding;
        }
        if self.detect_bars.is_none() {
            self.detect_bars = other.detect_bars;
        }
        if self.standard_resize.is_none() {
            self.standard_resize = other.standard_resize;
        }
        if self.stick_to_borders.is_none() {
            self.stick_to_borders = other.stick_to_borders;
        }
        if self.invert_resize_in_stick_mode.is_none() {
            self.invert_resize_in_stick_mode = other.invert_resize_in_stick_mode;
        }
        if self.resize_through_borders.is_none() {
            self.resize_through_borders = other.resize_through_borders;
        }
        if self.toggle_to_open_size.is_none() {
            self.toggle_to_open_size = other.toggle_to_open_size;
        }
    }

    /// A copy of the subsection.
    pub fn dup(&self) -> (r: PreConfig)
        ensures
            r == *self,
    {
        PreConfig {
            padding: dup_four(&self.padding),
            default_size: dup_pair(&self.default_size),
            margin: dup_pair(&self.margin),
            detect_padding: self.detect_padding,
            detect_bars: self.detect_bars,
            standard_resize: self.standard_resize,
            stick_to_borders: self.stick_to_borders,
            invert_resize_in_stick_mode: self.invert_resize_in_stick_mode,
            resize_through_borders: self.resize_through_borders,
            toggle_to_open_size: self.toggle_to_open_size,
        }
    }
}

/// Law: filling twice from the same subsection changes nothing more, and what the
/// subsection has itself is kept.
pub proof fn lemma_fill_idempotent(a: PreConfig, b: PreConfig)
    ensures
        spec_filled(spec_filled(a, b), b) == spec_filled(a, b),
        a.padding is Some ==> spec_filled(a, b).padding == a.padding,
        a.detect_padding is Some ==> spec_filled(a, b).detect_padding == a.detect_padding,
        spec_filled(a, b).padding is Some <==> (a.padding is Some || b.padding is Some),
{
}

/// Law: filling keeps every entry the subsection has, and takes from the other subsection
/// exactly the entries it leaves out.
pub proof fn lemma_fill_keeps_own_entries(a: PreConfig, b: PreConfig)
    ensures
        ({
            let f = spec_filled(a, b);
            &&& f.padding == (if a.padding is Some { a.padding } else { b.padding })
            &&& f.default_size == (if a.default_size is Some { a.default_size } else { b.default_size })
            &&& f.margin == (if a.margin is Some { a.margin } else { b.margin })
            &&& f.detect_padding == (if a.detect_padding is Some { a.detect_padding } else { b.detect_padding })
            &&& f.detect_bars == (if a.detect_bars is Some { a.detect_bars } else { b.detect_bars })
            &&& f.standard_resize == (if a.standard_resize is Some {
                a.standard_resize
            } else {
                b.standard_resize
            })
            &&& f.stick_to_borders == (if a.stick_to_borders is Some {
                a.stick_to_borders
            } else {
                b.stick_to_borders
            })
            &&& f.invert_resize_in_stick_mode == (if a.invert_resize_in_stick_mode is Some {
                a.invert_resize_in_stick_mode
            } else {
                b.invert_resize_in_stick_mode
            })
            &&& f.resize_through_borders == (if a.resize_through_borders is Some {
                a.resize_through_borders
            } else {
                b.resize_through_borders
            })
            &&& f.toggle_to_open_size == (if a.toggle_to_open_size is Some {
                a.toggle_to_open_size
            } else {
                b.toggle_to_open_size
            })
        }),
{
}

/// A parameter that must be there.
pub fn check_parameter<T>(value: Option<T>, parameter: ConfigParameter, info: &String) -> (r: Result<
    T,
    ConfigError,
>)
    ensures
        match value {
            Some(v) => r == Ok::<T, ConfigError>(v),
            None => r matches Err(ConfigError::MissingParameter(p, i)) && p == parameter && i@
                == info@,
        },
{
    match value {
        Some(v) => Ok(v),
        None => Err(ConfigError::MissingParameter(parameter, info.clone())),
    }
}

/// The subsections of `[monitors]`, where one that does not read as a subsection is `None`.
pub type MonitorSections = Keyed<Option<PreConfig>>;

/// The subsection that applies to monitor `id`: its own, else `any`.
pub open spec fn spec_subsection(sections: MonitorSections, id: Seq<char>) -> Option<Seq<char>> {
    if sections.get_spec(id) is Some {
        Some(id)
    } else if sections.get_spec("any"@) is Some {
        Some("any"@)
    } else {
        None
    }
}

/// The text that names the subsections read.
pub open spec fn spec_subsection_info(sub: Seq<char>, with_any: bool) -> Seq<char> {
    if with_any {
        "s"@ + " '[monitors."@ + sub + "]'"@ + " and '[monitors.any]'"@
    } else {
        " '[monitors."@ + sub + "]'"@
    }
}

/// The subsection of monitor `id` filled from `any`, with the text naming the subsections read.
pub fn merged_pre_config(sections: &MonitorSections, id: &String) -> (r: Result<
    (PreConfig, String),
    ConfigError,
>)
    ensures
        match spec_subsection(*sections, id@) {
            None => r matches Err(ConfigError::NoSubsection(i)) && i@ == id@,
            Some(sub) => match sections.get_spec(sub) {
                Some(None) => r matches Err(ConfigError::WrongValue(s)) && s@ == sub,
                Some(Some(pre)) => {
                    let with_any = sub != "any"@ && sections.get_spec("any"@) is Some;
                    if !with_any {
                        r matches Ok((p, info)) && p == pre && info@ == spec_subsection_info(
                            sub,
                            false,
                        )
                    } else {
                        match sections.get_spec("any"@) {
                            Some(Some(any)) => r matches Ok((p, info)) && p == spec_filled(
                                pre,
                                any,
                            ) && info@ == spec_subsection_info(sub, true),
                            _ => r matches Err(ConfigError::WrongValue(s)) && s@ == "any"@,
                        }
                    }
                },
                None => false,
            },
        },
{
    let any_key = "any";
    let sub: String = if sections.get(id.as_str()).is_some() {
        id.clone()
    } else if sections.get(any_key).is_some() {
        String::from_str(any_key)
    } else {
        return Err(ConfigError::NoSubsection(id.clone()));
    };
    let mut pre = match sections.get(sub.as_str()) {
        Some(Some(p)) => p.dup(),
        _ => return Err(ConfigError::WrongValue(sub)),
    };
    let info = String::from_str(" '[monitors.").concat(sub.as_str()).concat("]'");
    let is_any = crate::text::str_eq(sub.as_str(), any_key);
    if !is_any && sections.get(any_key).is_some() {
        match sections.get(any_key) {
            Some(Some(any)) => {
                pre.replace_none_values(any);
            },
            _ => return Err(ConfigError::WrongValue(String::from_str(any_key))),
        }
        let info = String::from_str("s").concat(info.as_str()).concat(" and '[monitors.any]'");
        return Ok((pre, info));
    }
    Ok((pre, info))
}

/// The size entries of a subsection: the paddings (top, right, bottom, left), the default
/// size and the margin; each must be there.
pub fn required_sizes(pre: &PreConfig, info: &String) -> (r: Result<
    ((SizeValue, SizeValue, SizeValue, SizeValue), (SizeValue, SizeValue), (SizeValue, SizeValue)),
    ConfigError,
>)
    ensures
        match (pre.padding, pre.default_size, pre.margin) {
            (Some(p), Some(d), Some(m)) => r == Ok::<_, ConfigError>((p, d, m)),
            (None, _, _) => r matches Err(ConfigError::MissingParameter(q, i)) && q
                == ConfigParameter::Padding && i@ == info@,
            (Some(_), None, _) => r matches Err(ConfigError::MissingParameter(q, i)) && q
                == ConfigParameter::DefaultSize && i@ == info@,
            (Some(_), Some(_), None) => r matches Err(ConfigError::MissingParameter(q, i)) && q
                == ConfigParameter::DefaultSize && i@ == info@,
        },
{
    let p = check_parameter(dup_four(&pre.padding), ConfigParameter::Padding, info)?;
    let d = check_parameter(dup_pair(&pre.default_size), ConfigParameter::DefaultSize, info)?;
    let m = check_parameter(dup_pair(&pre.margin), ConfigParameter::DefaultSize, info)?;
    Ok((p, d, m))
}

/// The per-axis data from the resolved sizes: paddings (top, right, bottom, left),
/// the default size and the margin of each axis.
pub fn axis_config(padding: (i16, i16, i16, i16), default_size: (i16, i16), margin: (i16, i16)) -> (r:
    PerAxis<ConfigAxisData>)
    ensures
        r.x == (ConfigAxisData {
            padding_min: padding.3,
            padding_max: padding.1,
            default_size: default_size.0,
            margin: margin.0,
        }),
        r.y == (ConfigAxisData {
            padding_min: padding.0,
            padding_max: padding.2,
            default_size: default_size.1,
            margin: margin.1,
        }),
{
    PerAxis {
        x: ConfigAxisData {
            padding_min: padding.3,
            padding_max: padding.1,
            default_size: default_size.0,
            margin: margin.0,
        },
        y: ConfigAxisData {
            padding_min: padding.0,
            padding_max: padding.2,
            default_size: default_size.1,
            margin: margin.1,
        },
    }
}

/// The configuration, once each switch is found there.
pub fn finish_config(pre: &PreConfig, info: &String, axis_data: PerAxis<ConfigAxisData>) -> (r:
    Result<Config, ConfigError>)
    ensures
        match r {
            Ok(c) => c == (Config {
                axis_data,
                detect_padding: pre.detect_padding.unwrap(),
                detect_bars: pre.detect_bars.unwrap(),
                standard_resize: pre.standard_resize.unwrap(),
                stick_to_borders: pre.stick_to_borders.unwrap(),
                invert_resize_in_stick_mode: pre.invert_resize_in_stick_mode.unwrap(),
                resize_through_borders: pre.resize_through_borders.unwrap(),
                toggle_to_open_size: pre.toggle_to_open_size.unwrap(),
            }) && pre.detect_padding is Some && pre.detect_bars is Some && pre.standard_resize is Some
                && pre.stick_to_borders is Some && pre.invert_resize_in_stick_mode is Some
                && pre.resize_through_borders is Some && pre.toggle_to_open_size is Some,
            Err(ConfigError::MissingParameter(q, i)) => i@ == info@ && (if pre.detect_padding is None {
                q == ConfigParameter::DetectPadding
            } else if pre.detect_bars is None {
                q == ConfigParameter::DetectBars
            } else if pre.standard_resize is None {
                q == ConfigParameter::StandardResize
            } else if pre.stick_to_borders is None {
                q == ConfigParameter::StickToBorders
            } else if pre.invert_resize_in_stick_mode is None {
                q == ConfigParameter::InvertResizeInStickMode
            } else if pre.resize_through_borders is None {
                q == ConfigParameter::ResizeThroughBorders
            } else {
                pre.toggle_to_open_size is None && q == ConfigParameter::ToggleToOpenSize
            }),
            Err(_) => false,
        },
{
    Ok(
        Config {
            axis_data,
            detect_padding: check_parameter(
                pre.detect_padding,
                ConfigParameter::DetectPadding,
                info,
            )?,
            detect_bars: check_parameter(pre.detect_bars, ConfigParameter::DetectBars, info)?,
            standard_resize: check_parameter(
                pre.standard_resize,
                ConfigParameter::StandardResize,
                info,
            )?,
            stick_to_borders: check_parameter(
                pre.stick_to_borders,
                ConfigParameter::StickToBorders,
                info,
            )?,
            invert_resize_in_stick_mode: check_parameter(
                pre.invert_resize_in_stick_mode,
                ConfigParameter::InvertResizeInStickMode,
                info,
            )?,
            resize_through_borders: check_parameter(
                pre.resize_through_borders,
                ConfigParameter::ResizeThroughBorders,
                info,
            )?,
            toggle_to_open_size: check_parameter(
                pre.toggle_to_open_size,
                ConfigParameter::ToggleToOpenSize,
                info,
            )?,
        },
    )
}

} // verus!
