//! Opening a program in a floating window: the parameters of the run, the class of the
//! program, the size to open it at and the window rule handed to Hyprland.
use vstd::prelude::*;
use crate::args::{position_or_any, spec_position_or_any, ExecArgs};
use crate::arith::{spec_two_fifths, two_fifths};
use crate::cache::{class_of_binary, ClassCache, Keyed};
use crate::structs::{
    empty_parameters, size_or_empty, spec_empty_parameters, Axis, Binary, Config, CountSystem,
    Parameters, PerAxis, RuleValue, Session, SizeParams, SizeValue, WindowsConfig,
};
use crate::text::{decimal, spec_decimal, spec_words, split_whitespace, str_eq, views};

verus! {

/// The keys of the requested sizes.
#[derive(Clone, Copy, Debug, PartialEq, Eq, Structural)]
pub enum SizeKey {
    /// The size on an axis.
    Axis(Axis),
    /// The size on an axis of the window before it opens.
    Origin(Axis),
}

pub open spec fn spec_size_lookup(map: SizeParams, key: SizeKey) -> Option<i16> {
    match key {
        SizeKey::Axis(a) => map.axis_spec(a),
        SizeKey::Origin(a) => map.origin_spec(a),
    }
}

/// The requested size under `key`, or `default_value` when there is none.
pub fn get_parameter(key: SizeKey, map: &SizeParams, default_value: i16) -> (r: i16)
    ensures
        r == match spec_size_lookup(*map, key) {
            Some(v) => v,
            None => default_value,
        },
{
    let v = match key {
        SizeKey::Axis(a) => map.axis(a),
        SizeKey::Origin(a) => map.origin(a),
    };
    match v {
        Some(v) => v,
        None => default_value,
    }
}

/// The size the window is given on `axis` once it is open.
pub open spec fn spec_compare_size_parameters(s: Session, axis: Axis) -> int {
    let p = s.params;
    let size = size_or_empty(p.size);
    let ws = s.client.axis_data.at(axis).window_size as int;
    if size.axis_spec(axis) is Some {
        size.axis_spec(axis).unwrap() as int
    } else if p.count_system == CountSystem::Origin && size.origin_spec(axis) is Some {
        size.origin_spec(axis).unwrap() as int
    } else if ws <= 20 && p.origin_size {
        spec_two_fifths(s.monitor.axis_data.x.resolution as int)
    } else {
        ws
    }
}

pub fn compare_size_parameters(s: &Session, axis: Axis) -> (r: i16)
    ensures
        r == spec_compare_size_parameters(*s, axis),
{
    let p = &s.params;
    let size = match p.size {
        Some(sz) => sz,
        None => SizeParams::empty(),
    };
    assert(size == size_or_empty(p.size));
    let ws = s.client.axis_data.get(axis).window_size;
    let output = get_parameter(SizeKey::Axis(axis), &size, ws);
    if let Some(v) = size.axis(axis) {
        v
    } else if p.count_system == CountSystem::Origin && size.origin(axis).is_some() {
        get_parameter(SizeKey::Origin(axis), &size, ws)
    } else if output <= 20 && p.origin_size {
        two_fifths(s.monitor.axis_data.x.resolution)
    } else {
        output
    }
}

/// The size of the window on `axis` before it opens.
pub open spec fn spec_origin_size(p: Parameters, conf: Config, axis: Axis) -> i16 {
    let size = size_or_empty(p.size);
    if size.axis_spec(axis) is Some {
        size.axis_spec(axis).unwrap()
    } else if p.default_size {
        conf.axis_data.at(axis).default_size
    } else {
        match size.origin_spec(axis) {
            Some(v) => v,
            None => 20,
        }
    }
}

pub fn get_origin_size(p: &Parameters, conf: &Config, axis: Axis) -> (r: i16)
    ensures
        r == spec_origin_size(*p, *conf, axis),
{
    let size = match p.size {
        Some(sz) => sz,
        None => SizeParams::empty(),
    };
    if let Some(v) = size.axis(axis) {
        v
    } else if p.default_size {
        conf.axis_data.get(axis).default_size
    } else {
        get_parameter(SizeKey::Origin(axis), &size, 20)
    }
}

/// The parameters of a run of `exec`; `size` holds the two requested sizes once read.
pub open spec fn spec_exec_parameters(args: ExecArgs, size: Option<(i16, i16)>) -> Parameters {
    Parameters {
        binary: Binary::Open,
        position: spec_position_or_any(args.position@),
        tile: args.tile,
        origin_size: args.origin_size || args.default_size,
        default_size: args.default_size,
        size_from_args: size is Some,
        size: match size {
            Some((x, y)) => Some(
                SizeParams { x: Some(x), y: Some(y), origin_x: None, origin_y: None },
            ),
            None => None,
        },
        at: if args.at@.len() > 0 {
            Some(PerAxis { x: args.at@[0], y: args.at@[1] })
        } else {
            None
        },
        ..spec_empty_parameters()
    }
}

/// The parameters of a run of `exec`, and `--force` turning padding detection off.
pub fn define_parameters(args: &ExecArgs, conf: &mut Config, size: Option<(i16, i16)>) -> (r:
    Parameters)
    requires
        args.size@.len() > 0 <==> size is Some,
        args.at@.len() == 0 || args.at@.len() >= 2,
    ensures
        r == spec_exec_parameters(*args, size),
        *final(conf) == (if args.force {
            Config { detect_padding: false, ..*old(conf) }
        } else {
            *old(conf)
        }),
{
    let mut out = empty_parameters();
    out.binary = Binary::Open;
    out.position = position_or_any(args.position.as_str());
    out.tile = args.tile;
    out.origin_size = args.origin_size;
    out.default_size = args.default_size;
    if args.default_size {
        out.origin_size = true;
    }
    if args.force {
        conf.detect_padding = false;
    }
    if let Some((x, y)) = size {
        out.size_from_args = true;
        out.size = Some(SizeParams::of_axes(x, y));
    }
    if args.at.len() > 0 {
        out.at = Some(PerAxis { x: args.at[0], y: args.at[1] });
    }
    out
}

/// Whether a word asks for a window class.
pub open spec fn is_class_flag(w: Seq<char>) -> bool {
    w == "--class"@ || w == "--app-id"@
}

/// The first position after the program where a word asks for a class.
pub open spec fn first_class_flag(words: Seq<Seq<char>>) -> Option<int> {
    if exists|j: int| 1 <= j < words.len() && #[trigger] is_class_flag(words[j]) {
        Some(
            choose|j: int|
                1 <= j < words.len() && #[trigger] is_class_flag(words[j]) && forall|k: int|
                    1 <= k < j ==> !is_class_flag(#[trigger] words[k]),
        )
    } else {
        None
    }
}

proof fn lemma_first_class_flag(words: Seq<Seq<char>>, j: int)
    requires
        1 <= j < words.len(),
        is_class_flag(words[j]),
        forall|k: int| 1 <= k < j ==> !is_class_flag(#[trigger] words[k]),
    ensures
        first_class_flag(words) == Some(j),
{
    let c = choose|c: int|
        1 <= c < words.len() && #[trigger] is_class_flag(words[c]) && forall|k: int|
            1 <= k < c ==> !is_class_flag(#[trigger] words[k]);
    assert(1 <= c < words.len() && is_class_flag(words[c]) && forall|k: int|
        1 <= k < c ==> !is_class_flag(#[trigger] words[k]));
    if c < j {
        assert(!is_class_flag(words[c]));
    }
    if j < c {
        assert(!is_class_flag(words[j]));
    }
}

/// The program a request starts, and the class its options name.
#[derive(Debug)]
pub struct ClassRequest {
    pub binary: String,
    pub class: Option<String>,
}

/// The words of the last part of a request: the program, then its options.
pub open spec fn request_words(request: Seq<String>) -> Seq<Seq<char>> {
    spec_words(request.last()@)
}

/// The program that the last part of a request runs, and the class that `--class` or
/// `--app-id` names after it.
pub fn get_class_from_request(request: &Vec<String>) -> (r: ClassRequest)
    requires
        request@.len() > 0,
        request_words(request@).len() > 0,
        first_class_flag(request_words(request@)) matches Some(j) ==> j + 1 < request_words(
            request@,
        ).len(),
    ensures
        r.binary@ == request_words(request@)[0],
        match first_class_flag(request_words(request@)) {
            Some(j) => r.class matches Some(c) && c@ == request_words(request@)[j + 1],
            None => r.class is None,
        },
{
    let executable = &request[request.len() - 1];
    let words = split_whitespace(executable.as_str());
    let ghost w = views(words@);
    assert(w == request_words(request@));
    let binary = words[0].clone();
    assert(binary@ == w[0]);
    let mut i: usize = 1;
    while i < words.len()
        invariant
            1 <= i <= words@.len(),
            w == views(words@),
            w.len() == words@.len(),
            w == request_words(request@),
            binary@ == w[0],
            first_class_flag(w) matches Some(j) ==> j + 1 < w.len(),
            forall|k: int| 1 <= k < i ==> !is_class_flag(#[trigger] w[k]),
        decreases words.len() - i,
    {
        assert(w[i as int] == words@[i as int]@);
        if str_eq(words[i].as_str(), "--class") || str_eq(words[i].as_str(), "--app-id") {
            proof {
                lemma_first_class_flag(w, i as int);
            }
            let c = words[i + 1].clone();
            assert(c@ == w[i + 1]);
            return ClassRequest { binary, class: Some(c) };
        }
        i = i + 1;
    }
    assert(first_class_flag(w) is None) by {
        if exists|j: int| 1 <= j < w.len() && #[trigger] is_class_flag(w[j]) {
            let j = choose|j: int| 1 <= j < w.len() && #[trigger] is_class_flag(w[j]);
            assert(!is_class_flag(w[j]));
        }
    }
    ClassRequest { binary, class: None }
}

/// The class of the window a request opens: the one its options name, else the one
/// remembered for its program, else none (empty).
pub fn class_for_request(r: &ClassRequest, classes: &ClassCache) -> (c: String)
    ensures
        c@ == match r.class {
            Some(named) => named@,
            None => match classes.get_spec(r.binary@) {
                Some(k) => k@,
                None => Seq::<char>::empty(),
            },
        },
{
    match &r.class {
        Some(named) => named.clone(),
        None => class_of_binary(classes, r.binary.as_str()),
    }
}

/// Where the size of a window comes from before it opens.
#[derive(Debug)]
pub enum Predefined {
    /// The sizes the configuration gives for the class on this monitor.
    Config(SizeValue, SizeValue),
    /// The size remembered for the class.
    Cache,
    /// No size is looked for in the cache.
    NotFromCache,
    /// The subsection of the class is not a table, or its entry not a pair.
    Malformed,
}

/// The key of the monitor's entry in a class subsection.
pub open spec fn monitor_key(monitor: Seq<char>) -> Seq<char> {
    "monitor_"@ + monitor
}

/// Whether the configuration sizes apply to this run.
pub open spec fn config_sizes_apply(s: Session) -> bool {
    (s.config.toggle_to_open_size && s.params.binary == Binary::ToggleFloating) || s.params.binary
        == Binary::Open
}

/// The cache decision once the configuration gives no size.
pub open spec fn spec_cache_decision(s: Session) -> bool {
    s.params.count_system == CountSystem::Origin || s.params.binary == Binary::ToggleFloating
}

/// What a rule value gives.
pub open spec fn rule_predefined(v: RuleValue) -> Predefined {
    match v {
        RuleValue::Pair(a, b) => Predefined::Config(a, b),
        RuleValue::NotPair => Predefined::Malformed,
    }
}

/// Where the size of a window of `class` comes from.
pub open spec fn spec_predefine(s: Session, windows: WindowsConfig, class: Seq<char>) -> Predefined {
    let fallback = if spec_cache_decision(s) {
        Predefined::Cache
    } else {
        Predefined::NotFromCache
    };
    if windows.get_spec(class) is Some && config_sizes_apply(s) {
        match windows.get_spec(class).unwrap() {
            None => Predefined::Malformed,
            Some(section) => {
                let own = monitor_key(s.client.monitor@);
                if section.get_spec(own) is Some {
                    rule_predefined(section.get_spec(own).unwrap())
                } else if section.get_spec("monitor_any"@) is Some {
                    rule_predefined(section.get_spec("monitor_any"@).unwrap())
                } else {
                    fallback
                }
            },
        }
    } else {
        fallback
    }
}

fn dup_rule(v: &RuleValue) -> (r: Predefined)
    ensures
        r == rule_predefined(*v),
{
    match v {
        RuleValue::Pair(a, b) => Predefined::Config(a.dup(), b.dup()),
        RuleValue::NotPair => Predefined::Malformed,
    }
}

/// Where the size of a window of `class` comes from: the configuration of the class on this
/// monitor or on any monitor, else the cache.
pub fn predefine_size_by_class(s: &Session, windows: &WindowsConfig, class: &str) -> (r: Predefined)
    ensures
        r == spec_predefine(*s, *windows, class@),
{
    let fallback = if s.params.count_system == CountSystem::Origin || s.params.binary
        == Binary::ToggleFloating {
        Predefined::Cache
    } else {
        Predefined::NotFromCache
    };
    let applies = (s.config.toggle_to_open_size && s.params.binary == Binary::ToggleFloating)
        || s.params.binary == Binary::Open;
    if !applies {
        return fallback;
    }
    match windows.get(class) {
        None => fallback,
        Some(None) => Predefined::Malformed,
        Some(Some(section)) => {
            let own = String::from_str("monitor_").concat(s.client.monitor.as_str());
            match section.get(own.as_str()) {
                Some(v) => dup_rule(v),
                None => match section.get("monitor_any") {
                    Some(v) => dup_rule(v),
                    None => fallback,
                },
            }
        },
    }
}

/// The smallest size the configuration gives for the class, `(0, 0)` when it gives none, or
/// `None` when its entry is not a pair of integers.
pub open spec fn spec_minimal_size(windows: WindowsConfig, class: Seq<char>) -> Option<(u16, u16)> {
    match windows.get_spec(class) {
        None => Some((0, 0)),
        Some(None) => None,
        Some(Some(section)) => match section.get_spec("minimal_size"@) {
            None => Some((0, 0)),
            Some(RuleValue::Pair(SizeValue::Integer(a), SizeValue::Integer(b))) => Some(
                (a as u16, b as u16),
            ),
            _ => None,
        },
    }
}

pub fn minimal_size_for_class(windows: &WindowsConfig, class: &str) -> (r: Option<(u16, u16)>)
    ensures
        r == spec_minimal_size(*windows, class@),
{
    match windows.get(class) {
        None => Some((0, 0)),
        Some(None) => None,
        Some(Some(section)) => match section.get("minimal_size") {
            None => Some((0, 0)),
            Some(RuleValue::Pair(SizeValue::Integer(a), SizeValue::Integer(b))) => Some(
                (*a as u16, *b as u16),
            ),
            _ => None,
        },
    }
}

/// Whether `exec` looks up a size for the class before the window opens.
pub fn predefines_before_open(args: &ExecArgs) -> (r: bool)
    ensures
        r == (!args.default_size && args.size@.len() == 0),
{
    !args.default_size && args.size.len() == 0
}

/// Whether `exec` gives the window a size before it opens.
pub fn sizes_before_open(p: &Parameters, class: &String) -> (r: bool)
    ensures
        r == (p.origin_size || (!p.size_from_args && class@.len() != 0)),
{
    p.origin_size || (!p.size_from_args && !class.as_str().is_empty())
}

/// The `size` part of a window rule.
pub fn size_rule(x: i16, y: i16) -> (r: String)
    ensures
        r@ == "size "@ + spec_decimal(x as int) + " "@ + spec_decimal(y as int),
{
    String::from_str("size ").concat(decimal(x).as_str()).concat(" ").concat(decimal(y).as_str())
}

/// The `move` part of a window rule.
pub fn move_rule(x: &String, y: &String) -> (r: String)
    ensures
        r@ == "move "@ + x@ + " "@ + y@,
{
    String::from_str("move ").concat(x.as_str()).concat(" ").concat(y.as_str())
}

/// The command handed to Hyprland: the program, opened floating with the rules given.
pub fn exec_rule(position: &String, size: &String, executable: &String) -> (r: String)
    ensures
        r@ == "[float;"@ + position@ + ";"@ + size@ + ";] "@ + executable@,
{
    String::from_str("[float;").concat(position.as_str()).concat(";").concat(size.as_str()).concat(
        ";] ",
    ).concat(executable.as_str())
}

/// Law: a size given with `--size` is the size the window gets once it is open.
pub proof fn lemma_given_size_is_kept(s: Session, args: ExecArgs, x: i16, y: i16)
    requires
        s.params.size == spec_exec_parameters(args, Some((x, y))).size,
    ensures
        spec_compare_size_parameters(s, Axis::X) == x,
        spec_compare_size_parameters(s, Axis::Y) == y,
{
}

/// Law: with `--default-size`, the window gets the default size of the configuration.
pub proof fn lemma_default_size_is_used(s: Session)
    requires
        s.params.size == Some(
            SizeParams {
                x: Some(s.config.axis_data.x.default_size),
                y: Some(s.config.axis_data.y.default_size),
                origin_x: None,
                origin_y: None,
            },
        ),
    ensures
        spec_compare_size_parameters(s, Axis::X) == s.config.axis_data.x.default_size,
        spec_compare_size_parameters(s, Axis::Y) == s.config.axis_data.y.default_size,
{
}

} // verus!
