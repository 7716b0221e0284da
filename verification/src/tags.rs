//! The stick tags that a window carries on each axis, and the commands that set them.
use vstd::prelude::*;
use crate::structs::{Axis, Config, StickTag, TagCommand, TagSet};
use crate::text::{lemma_split_nonempty, spec_split, split_text, str_eq, views};

verus! {

/// Whether moves and resizes keep track of borders through tags.
pub open spec fn tagging_enabled(conf: Config) -> bool {
    conf.detect_padding && conf.stick_to_borders && !conf.resize_through_borders
}

/// The commands that make `anchor` the one stick tag of `axis`: every other one is removed.
pub open spec fn spec_tag_it(conf: Config, axis: Axis, anchor: StickTag) -> Seq<TagCommand> {
    if tagging_enabled(conf) {
        seq![
            TagCommand { axis, tag: StickTag::NoStick, untag: anchor != StickTag::NoStick },
            TagCommand { axis, tag: StickTag::Min, untag: anchor != StickTag::Min },
            TagCommand { axis, tag: StickTag::Max, untag: anchor != StickTag::Max },
        ]
    } else {
        seq![]
    }
}

/// The tag commands that stick a window to `anchor` on `axis`.
pub fn tag_it(conf: &Config, axis: Axis, anchor: StickTag) -> (cmds: Vec<TagCommand>)
    ensures
        cmds@ == spec_tag_it(*conf, axis, anchor),
{
    let mut cmds: Vec<TagCommand> = Vec::new();
    if conf.detect_padding && conf.stick_to_borders && !conf.resize_through_borders {
        cmds.push(TagCommand { axis, tag: StickTag::NoStick, untag: anchor != StickTag::NoStick });
        cmds.push(TagCommand { axis, tag: StickTag::Min, untag: anchor != StickTag::Min });
        cmds.push(TagCommand { axis, tag: StickTag::Max, untag: anchor != StickTag::Max });
    }
    cmds
}

/// Appends the commands of `tag_it` to `cmds`.
pub fn push_tag_it(cmds: &mut Vec<TagCommand>, conf: &Config, axis: Axis, anchor: StickTag)
    ensures
        final(cmds)@ == old(cmds)@ + spec_tag_it(*conf, axis, anchor),
{
    if conf.detect_padding && conf.stick_to_borders && !conf.resize_through_borders {
        cmds.push(TagCommand { axis, tag: StickTag::NoStick, untag: anchor != StickTag::NoStick });
        cmds.push(TagCommand { axis, tag: StickTag::Min, untag: anchor != StickTag::Min });
        cmds.push(TagCommand { axis, tag: StickTag::Max, untag: anchor != StickTag::Max });
    }
}

/// A single tag command, given only when tagging is enabled.
pub fn tag_window_once(conf: &Config, axis: Axis, tag: StickTag, untag: bool) -> (cmd: Option<TagCommand>)
    ensures
        cmd == (if tagging_enabled(*conf) {
            Some((TagCommand { axis, tag, untag }))
        } else {
            None
        }),
{
    if conf.detect_padding && conf.stick_to_borders && !conf.resize_through_borders {
        Some(TagCommand { axis, tag, untag })
    } else {
        None
    }
}

/// Law: after the commands of `tag_it` run, the window carries `anchor` and no other stick tag of `axis`.
pub proof fn lemma_tag_it_leaves_one(conf: Config, axis: Axis, anchor: StickTag)
    requires
        tagging_enabled(conf),
    ensures
        forall|i: int|
            0 <= i < spec_tag_it(conf, axis, anchor).len() ==> {
                let c = #[trigger] spec_tag_it(conf, axis, anchor)[i];
                c.axis == axis && (c.untag <==> c.tag != anchor)
            },
        exists|i: int|
            0 <= i < spec_tag_it(conf, axis, anchor).len() && spec_tag_it(conf, axis, anchor)[i]
                == (TagCommand { axis, tag: anchor, untag: false }),
        spec_tag_it(conf, axis, anchor).len() == 3,
{
    let s = spec_tag_it(conf, axis, anchor);
    match anchor {
        StickTag::NoStick => assert(s[0] == (TagCommand { axis, tag: anchor, untag: false })),
        StickTag::Min => assert(s[1] == (TagCommand { axis, tag: anchor, untag: false })),
        StickTag::Max => assert(s[2] == (TagCommand { axis, tag: anchor, untag: false })),
    }
}

/// The name of the tag `<axis>_<tag>`.
pub open spec fn spec_tag_name(axis: Axis, tag: StickTag) -> Seq<char> {
    match (axis, tag) {
        (Axis::X, StickTag::Min) => "x_min"@,
        (Axis::X, StickTag::Max) => "x_max"@,
        (Axis::X, StickTag::NoStick) => "x_no_stick"@,
        (Axis::Y, StickTag::Min) => "y_min"@,
        (Axis::Y, StickTag::Max) => "y_max"@,
        (Axis::Y, StickTag::NoStick) => "y_no_stick"@,
    }
}

pub fn tag_name(axis: Axis, tag: StickTag) -> (r: &'static str)
    ensures
        r@ == spec_tag_name(axis, tag),
{
    match (axis, tag) {
        (Axis::X, StickTag::Min) => "x_min",
        (Axis::X, StickTag::Max) => "x_max",
        (Axis::X, StickTag::NoStick) => "x_no_stick",
        (Axis::Y, StickTag::Min) => "y_min",
        (Axis::Y, StickTag::Max) => "y_max",
        (Axis::Y, StickTag::NoStick) => "y_no_stick",
    }
}

/// The argument of Hyprland's `tagwindow` for a command: `+name` adds the tag, `-name` removes it.
pub open spec fn spec_tag_argument(cmd: TagCommand) -> Seq<char> {
    (if cmd.untag {
        "-"@
    } else {
        "+"@
    }) + spec_tag_name(cmd.axis, cmd.tag)
}

pub fn tag_window(cmd: &TagCommand) -> (r: String)
    ensures
        r@ == spec_tag_argument(*cmd),
{
    let sign = if cmd.untag {
        "-"
    } else {
        "+"
    };
    String::from_str(sign).concat(tag_name(cmd.axis, cmd.tag))
}

/// Whether a list of tags holds one named `name`.
pub open spec fn holds_tag(tags: Seq<String>, name: Seq<char>) -> bool {
    exists|i: int| 0 <= i < tags.len() && #[trigger] tags[i]@ == name
}

fn holds_tag_exec(tags: &Vec<String>, name: &str) -> (r: bool)
    ensures
        r == holds_tag(tags@, name@),
{
    let mut i: usize = 0;
    while i < tags.len()
        invariant
            i <= tags@.len(),
            forall|j: int| 0 <= j < i ==> #[trigger] tags@[j]@ != name@,
        decreases tags@.len() - i,
    {
        if str_eq(tags[i].as_str(), name) {
            return true;
        }
        i = i + 1;
    }
    false
}

/// The stick tags of `axis` among the tags of a window.
pub open spec fn spec_axis_tags(tags: Seq<String>, axis: Axis) -> TagSet {
    TagSet {
        min: holds_tag(tags, spec_tag_name(axis, StickTag::Min)),
        max: holds_tag(tags, spec_tag_name(axis, StickTag::Max)),
        no_stick: holds_tag(tags, spec_tag_name(axis, StickTag::NoStick)),
    }
}

pub fn axis_tags(tags: &Vec<String>, axis: Axis) -> (r: TagSet)
    ensures
        r == spec_axis_tags(tags@, axis),
{
    TagSet {
        min: holds_tag_exec(tags, tag_name(axis, StickTag::Min)),
        max: holds_tag_exec(tags, tag_name(axis, StickTag::Max)),
        no_stick: holds_tag_exec(tags, tag_name(axis, StickTag::NoStick)),
    }
}

/// The tags of a window as the tag tool prints them: the first line, cut at each `, `.
pub open spec fn spec_parse_tags(output: Seq<char>) -> Seq<Seq<char>> {
    spec_split(spec_split(output, seq!['\n'])[0], seq![',', ' '])
}

pub fn parse_tags(output: &str) -> (r: Vec<String>)
    ensures
        views(r@) == spec_parse_tags(output@),
{
    proof {
        reveal_strlit("\n");
        reveal_strlit(", ");
    }
    let lines = split_text(output, "\n");
    assert("\n"@ =~= seq!['\n']);
    assert(", "@ =~= seq![',', ' ']);
    proof {
        assert(spec_split(output@, seq!['\n']).len() > 0) by {
            lemma_split_nonempty(output@, seq!['\n'], 0, 0);
        }
    }
    assert(lines@[0]@ == views(lines@)[0]);
    split_text(lines[0].as_str(), ", ")
}

} // verus!
