//! What the sections of a configuration do to it.

use vstd::prelude::*;
use crate::config::binds::{switch_command, Binds, SwitchBinds};
use crate::config::decode::{
    begins_include, config_with, finishes, include_errors, include_fault, is_duplicate,
    is_multipart, is_remembered, optional_of, outcome_fault, reads_include, reads_node,
    resolved_path, section_named, Config, ConfigPart, ConfigState, FileState, IncludeNode,
    IncludeOutcome, Section, SectionPart, RECURSION_LIMIT,
};
use crate::config::layout::{Layout, LayoutPart};
use crate::config::node::{bool_of, DecodeError, Node, Value};
use crate::config::path::{current_dir, joined_paths_end_alike, FilePath, PathState};
use crate::config::session_restore::{part_states, SessionRestore, SessionRestorePart};
use crate::config::utils::Literal;
use crate::config::window_rule::WindowRule;
use crate::layout::workspace::{Output, Workspace};

verus! {

/// The name of a section in a file.
pub open spec fn section_name(section: Section) -> Seq<char> {
    match section {
        Section::Input => "input"@,
        Section::Cursor => "cursor"@,
        Section::Clipboard => "clipboard"@,
        Section::HotkeyOverlay => "hotkey-overlay"@,
        Section::ConfigNotification => "config-notification"@,
        Section::Appearance => "appearance"@,
        Section::Animations => "animations"@,
        Section::Blur => "blur"@,
        Section::Gestures => "gestures"@,
        Section::Overview => "overview"@,
        Section::XwaylandSatellite => "xwayland-satellite"@,
        Section::SessionRestore => "session-restore"@,
        Section::SwitchEvents => "switch-events"@,
        Section::Debug => "debug"@,
        Section::Output => "output"@,
        Section::SpawnAtStartup => "spawn-at-startup"@,
        Section::SpawnShAtStartup => "spawn-sh-at-startup"@,
        Section::WindowRule => "window-rule"@,
        Section::LayerRule => "layer-rule"@,
        Section::Workspace => "workspace"@,
        Section::Binds => "binds"@,
        Section::Environment => "environment"@,
        Section::PreferNoCsd => "prefer-no-csd"@,
        Section::EnableStacking => "enable-stacking"@,
        Section::StackingMoveOverlapFirst => "stacking-move-overlap-first"@,
        Section::ScreenshotPath => "screenshot-path"@,
        Section::Layout => "layout"@,
        Section::RecentWindows => "recent-windows"@,
        Section::Include => "include"@,
    }
}

/// A node is decoded as the section that it names.
pub proof fn sections_are_found_by_name(name: Seq<char>)
    ensures
        section_named(name) matches Some(section) ==> section_name(section) == name,
{
}

/// Each section can be named.
pub proof fn every_section_has_a_name(section: Section)
    ensures
        section_named(section_name(section)) is Some,
        section_name(section_named(section_name(section))->0) == section_name(section),
{
    sections_are_found_by_name(section_name(section));
}

/// A section changes what it is about and nothing else.
pub proof fn sections_change_their_settings_only(
    before: ConfigState,
    part: SectionPart,
    depth: int,
    saw_recent_binds: bool,
)
    ensures
        ({
            let after = config_with(before, part, depth, saw_recent_binds);
            &&& !(part is Layout) ==> after.layout == before.layout
            &&& !(part is Binds) ==> after.binds == before.binds
            &&& !(part is SwitchEvents) ==> after.switch_events == before.switch_events
            &&& !(part is SessionRestore) ==> after.session_restore == before.session_restore
            &&& !(part is PreferNoCsd) ==> after.prefer_no_csd == before.prefer_no_csd
            &&& !(part is EnableStacking) ==> after.enable_stacking == before.enable_stacking
            &&& !(part is StackingMoveOverlapFirst)
                ==> after.stacking_move_overlap_first == before.stacking_move_overlap_first
            &&& !(part is RecentWindows) && !(part is Other) ==> after.other == before.other
        }),
{
}

/// A flag is set as it is given, and a later one wins.
pub proof fn flags_are_as_given(
    before: ConfigState,
    part: SectionPart,
    depth: int,
    saw_recent_binds: bool,
)
    ensures
        ({
            let after = config_with(before, part, depth, saw_recent_binds);
            &&& part matches SectionPart::PreferNoCsd(given) ==> after.prefer_no_csd == given.0
            &&& part matches SectionPart::EnableStacking(given) ==> after.enable_stacking == given.0
            &&& part matches SectionPart::StackingMoveOverlapFirst(given)
                ==> after.stacking_move_overlap_first == given.0
        }),
{
}

/// What each switch sets off is as it is given, and else stays.
pub proof fn switches_are_as_given(
    before: ConfigState,
    given: SwitchBinds,
    depth: int,
    saw_recent_binds: bool,
)
    ensures
        ({
            let after = config_with(
                before,
                SectionPart::SwitchEvents(given),
                depth,
                saw_recent_binds,
            );
            &&& given.lid_open is Some
                ==> after.switch_events.lid_open == switch_command(given.lid_open)
            &&& given.lid_open is None
                ==> after.switch_events.lid_open == before.switch_events.lid_open
            &&& given.lid_close is Some
                ==> after.switch_events.lid_close == switch_command(given.lid_close)
            &&& given.lid_close is None
                ==> after.switch_events.lid_close == before.switch_events.lid_close
            &&& given.tablet_mode_on is Some
                ==> after.switch_events.tablet_mode_on == switch_command(given.tablet_mode_on)
            &&& given.tablet_mode_on is None
                ==> after.switch_events.tablet_mode_on == before.switch_events.tablet_mode_on
            &&& given.tablet_mode_off is Some
                ==> after.switch_events.tablet_mode_off == switch_command(given.tablet_mode_off)
            &&& given.tablet_mode_off is None
                ==> after.switch_events.tablet_mode_off == before.switch_events.tablet_mode_off
        }),
{
}

/// Session restore is off where the section says so, on where it says only that, and else as
/// it was. A path and commands that are given replace those that were there.
pub proof fn session_restore_is_as_given(
    before: ConfigState,
    given: SessionRestorePart,
    depth: int,
    saw_recent_binds: bool,
)
    ensures
        ({
            let was = before.session_restore;
            let after = config_with(
                before,
                SectionPart::SessionRestore(given),
                depth,
                saw_recent_binds,
            ).session_restore;
            &&& given.off ==> after.off
            &&& given.on && !given.off ==> !after.off
            &&& !given.on && !given.off ==> after.off == was.off
            &&& given.state_path is Some ==> after.state_path == given.state_path
            &&& given.state_path is None ==> after.state_path == was.state_path
            &&& given.launch_commands@.len() == 0 ==> after.launch_commands == was.launch_commands
            &&& given.launch_commands@.len() > 0 ==> {
                &&& after.launch_commands.len() == given.launch_commands@.len()
                &&& forall|i: int|
                    0 <= i < given.launch_commands@.len() ==> (#[trigger] after.launch_commands[i])
                        == given.launch_commands@[i]@
            }
        }),
{
    let after = config_with(before, SectionPart::SessionRestore(given), depth, saw_recent_binds);
    if given.launch_commands@.len() > 0 {
        assert(after.session_restore.launch_commands == part_states(given.launch_commands@));
    }
}

/// Each bind that is given is in effect, and so is each bind that was there whose key isn't
/// given. There are no others.
pub proof fn binds_are_as_given(
    before: ConfigState,
    given: Binds,
    depth: int,
    saw_recent_binds: bool,
    i: int,
)
    requires
        0 <= i < given.0@.len(),
    ensures
        config_with(before, SectionPart::Binds(given), depth, saw_recent_binds).binds.contains(
            given.0@[i],
        ),
{
    let after = config_with(before, SectionPart::Binds(given), depth, saw_recent_binds);
    let n = after.binds.len() - given.0@.len();
    assert(after.binds[n + i] == given.0@[i]);
}

/// A section that takes effect elsewhere is listed last, as what it is. The binds of the
/// switcher between recent windows that are built in go away with the first ones that are
/// given.
pub proof fn other_sections_are_listed(
    before: ConfigState,
    part: SectionPart,
    depth: int,
    saw_recent_binds: bool,
)
    requires
        part is RecentWindows || part is Other,
    ensures
        ({
            let after = config_with(before, part, depth, saw_recent_binds).other;
            &&& after.len() == before.other.len() + 1
            &&& after.drop_last() == before.other
            &&& part matches SectionPart::Other { section, part } ==> {
                &&& after.last().section == section
                &&& after.last().part == part
                &&& !after.last().clears_default_binds
            }
            &&& part matches SectionPart::RecentWindows { part, has_binds } ==> {
                &&& after.last().section is RecentWindows
                &&& after.last().part == part
                &&& after.last().clears_default_binds <==> has_binds && !saw_recent_binds
            }
        }),
{
    let after = config_with(before, part, depth, saw_recent_binds).other;
    assert(after.drop_last() =~= before.other);
}

/// A layout section in a file that is taken in has the effect of the settings that it gives,
/// and one in the first file has the same effect but for the borders.
pub proof fn layout_sections_take_effect(
    before: ConfigState,
    given: LayoutPart,
    depth: int,
    saw_recent_binds: bool,
)
    ensures
        ({
            let after = config_with(
                before,
                SectionPart::Layout(given),
                depth,
                saw_recent_binds,
            ).layout;
            let merged = crate::config::layout::merged_layout(before.layout, given);
            &&& depth != 0 ==> after == merged
            &&& after == (crate::config::layout::LayoutState { border: after.border, ..merged })
        }),
{
}

/// A file that is taken in is reported unless it was read and understood, or may be missing
/// and is.
pub proof fn only_optional_files_may_be_missing(optional: bool, outcome: IncludeOutcome)
    ensures
        outcome_fault(optional, outcome) is None <==> outcome is Decoded || optional
            && outcome is NotFound,
        outcome is NotDecoded ==> outcome_fault(optional, outcome)
            == Some(DecodeError::IncludeNotParsed),
        outcome matches IncludeOutcome::NotRead(reason) ==> outcome_fault(optional, outcome)
            == Some(DecodeError::IncludeNotRead(reason)),
        outcome matches IncludeOutcome::NotFound(reason) ==> !optional ==> outcome_fault(
            optional,
            outcome,
        ) == Some(DecodeError::IncludeNotRead(reason)),
{
}

/// A file is taken in if and only if it is known, isn't too deep, has a name and isn't being
/// read already.
pub proof fn files_are_taken_in_unless_faulty(s: FileState, file: Option<PathState>)
    ensures
        include_fault(s, file) is None <==> {
            &&& file is Some
            &&& s.depth + 1 != RECURSION_LIMIT
            &&& file->0.names_file()
            &&& !s.stack.contains(file->0)
        },
        file is None <==> include_fault(s, file) == Some(DecodeError::NoHome),
        include_fault(s, file) == Some(DecodeError::RecursiveInclude) ==> s.stack.contains(file->0),
        include_fault(s, file) == Some(DecodeError::NoFileName) ==> !file->0.names_file(),
        include_fault(s, file) == Some(DecodeError::RecursionLimit) ==> s.depth + 1
            == RECURSION_LIMIT,
{
}

/// A path that begins at the root is taken as it is, one that begins with `~` is below the
/// home directory, and any other is below the directory of the file that names it.
pub proof fn paths_are_seen_from_the_file(s: FileState, path: PathState, home: Option<PathState>)
    requires
        s.stack.len() > 0,
    ensures
        path.absolute ==> resolved_path(s, path, home) == Some(path),
        path.below_home() is Some && home is None <==> resolved_path(s, path, home) is None,
        path.below_home() is Some && home is Some ==> resolved_path(s, path, home)->0.absolute
            == (home->0.absolute || path.below_home()->0.absolute),
        path.below_home() is None && !path.absolute ==> resolved_path(s, path, home)->0.absolute
            == s.stack.last().directory().absolute,
        path.below_home() is None && !path.absolute ==> s.stack.last().directory().components
            .is_prefix_of(resolved_path(s, path, home)->0.components),
        path.below_home() is Some && home is Some ==> home->0.components.is_prefix_of(
            resolved_path(s, path, home)->0.components,
        ),
{
}

/// The sections that a file may hold more than once are those that add something each time.
pub proof fn only_lists_come_more_than_once(section: Section)
    ensures
        is_multipart(section) <==> {
            ||| section is Output
            ||| section is SpawnAtStartup
            ||| section is SpawnShAtStartup
            ||| section is WindowRule
            ||| section is LayerRule
            ||| section is Workspace
            ||| section is Include
        },
{
}

/// A configuration is in effect exactly if nothing was wrong with its files. Everything that
/// was wrong is reported, in order, and what kept a file from being read comes last.
pub proof fn faulty_configurations_are_refused(
    config: Config,
    errors: Seq<DecodeError>,
    failed: Option<DecodeError>,
    r: Result<Config, Vec<DecodeError>>,
)
    requires
        finishes(config, errors, failed, r),
    ensures
        r is Ok <==> errors.len() == 0 && failed is None,
        r matches Ok(done) ==> done == config,
        r matches Err(all) ==> {
            &&& all@.len() > 0
            &&& failed is None ==> all@ == errors
            &&& failed is Some ==> all@.last() == failed->0 && all@.drop_last() == errors
        },
{
    if failed is Some {
        assert(errors.push(failed->0).drop_last() =~= errors);
    }
}

/// A node with a name that was read before is left out and reported, unless it is one of
/// those that may come more than once.
pub proof fn nodes_are_read_once(
    s: FileState,
    name: String,
    errors: Seq<DecodeError>,
    after: FileState,
    reported: Seq<DecodeError>,
    r: Option<Section>,
    again: FileState,
    reported_again: Seq<DecodeError>,
    second: Option<Section>,
)
    requires
        reads_node(s, name, errors, after, reported, r),
        reads_node(after, name, reported, again, reported_again, second),
    ensures
        r matches Some(section) ==> r == section_named(name@),
        !is_duplicate(s, name@) ==> r == section_named(name@),
        !is_duplicate(s, name@) && r is None ==> reported == errors.push(
            DecodeError::Node { name },
        ),
        r is Some ==> reported == errors,
        r is Some && is_multipart(r->0) ==> second == r && reported_again == reported,
        r is Some && !is_multipart(r->0) ==> second is None && reported_again == reported.push(
            DecodeError::DuplicateNode { name },
        ),
        second is None ==> reported_again.len() == reported.len() + 1,
        after.stack == s.stack && after.depth == s.depth,
{
    if !is_duplicate(s, name@) && is_remembered(name@) {
        assert(after.seen[s.seen.len() as int] == name@);
    }
}

/// A file that is taken in is one deeper, is the last of those that took in one another, and
/// is listed. One that isn't is reported, and changes nothing else.
pub proof fn files_are_taken_in_one_deeper(
    s: FileState,
    file: Option<PathState>,
    before: (Seq<FilePath>, Seq<DecodeError>),
    after: (Seq<FilePath>, Seq<DecodeError>),
    r: Option<ConfigPart>,
)
    requires
        s.wf(),
        begins_include(s, file, before, after, r),
    ensures
        r is Some <==> include_fault(s, file) is None,
        r matches Some(part) ==> {
            &&& part@.depth == s.depth + 1
            &&& part@.stack.last() == file->0
            &&& part@.stack.drop_last() == s.stack
            &&& !s.stack.contains(file->0)
            &&& part@.seen.len() == 0
            &&& after.0.last()@ == file->0
            &&& after.0.drop_last() == before.0
            &&& after.1 == before.1
        },
        r is None ==> after.0 == before.0 && after.1.drop_last() == before.1,
{
    if r is Some {
        let part = r->0;
        assert(part@.stack.drop_last() =~= s.stack);
        if s.stack.contains(file->0) {
            let i = choose|i: int| 0 <= i < s.stack.len() && s.stack[i] == file->0;
            assert(part@.stack[i] == part@.stack[s.stack.len() as int]);
        }
    } else {
        assert(after.1.drop_last() =~= before.1);
    }
}

/// A file is optional exactly if the last property of that name says so. Any other property is
/// reported.
pub proof fn last_optional_counts(properties: Seq<(String, Value)>, name: String, value: Value)
    ensures
        optional_of(Seq::empty(), 0).0 == false,
        ({
            let n = properties.len() as int;
            let before = optional_of(properties, n);
            let after = optional_of(properties.push((name, value)), n + 1);
            &&& name@ == "optional"@ ==> after.0 == bool_of(value).0
            &&& name@ != "optional"@ ==> after.0 == before.0 && after.1 == before.1.push(
                DecodeError::Property { name },
            )
        }),
{
    lemma_optional_prefix(properties, (name, value), properties.len() as int);
}

proof fn lemma_optional_prefix(properties: Seq<(String, Value)>, more: (String, Value), n: int)
    requires
        0 <= n <= properties.len(),
    ensures
        optional_of(properties.push(more), n) == optional_of(properties, n),
    decreases n,
{
    if n > 0 {
        lemma_optional_prefix(properties, more, n - 1);
    }
}

/// The path of a node that takes in a file is its first argument, and a node without one is
/// refused.
pub proof fn paths_are_first_arguments(
    node: Node,
    before: Seq<DecodeError>,
    after: Seq<DecodeError>,
    r: Result<IncludeNode, DecodeError>,
)
    requires
        reads_include(node, before, after, r),
    ensures
        r is Ok <==> node.arguments@.len() > 0,
        r matches Ok(file) ==> {
            &&& node.arguments@[0].literal matches Literal::String(s) ==> file.path@ == s@
            &&& node.properties@.len() == 0 ==> !file.optional
            &&& node.arguments@[0].literal is String && node.arguments@[0].type_tag is None
                && node.arguments@.len() == 1 && node.properties@.len() == 0
                && node.children@.len() == 0 ==> after == before
        },
        r is Err ==> after == before,
{
    if r is Ok && node.arguments@[0].literal is String && node.arguments@[0].type_tag is None
        && node.arguments@.len() == 1 && node.properties@.len() == 0 && node.children@.len() == 0 {
        assert(include_errors(node) =~= Seq::empty());
        assert(before + include_errors(node) =~= before);
    }
}

/// A path that begins with `~` is seen from the home directory, and stands for nothing where
/// there is none.
pub proof fn paths_are_seen_from_home(s: FileState, path: PathState, home: PathState)
    requires
        path.below_home() is Some,
    ensures
        resolved_path(s, path, None) is None,
        resolved_path(s, path, Some(home)) is Some,
        ({
            let file = resolved_path(s, path, Some(home))->0;
            let rest = path.components.skip(1);
            &&& file.absolute == home.absolute
            &&& home.components.is_prefix_of(file.components)
            &&& rest.len() > 0 && rest[0] != current_dir() ==> file.components == home.components
                + rest
        }),
        forall|other: FileState|
            #![trigger resolved_path(other, path, Some(home))]
            resolved_path(other, path, Some(home)) == resolved_path(s, path, Some(home)),
{
    joined_paths_end_alike(home, path.below_home()->0);
}

/// A path that neither begins at the root nor with `~` is seen from the directory of the file
/// that it stands in, whatever the home directory is.
pub proof fn other_paths_are_seen_from_the_directory(
    s: FileState,
    path: PathState,
    home: Option<PathState>,
)
    requires
        path.below_home() is None,
        !path.absolute,
    ensures
        ({
            let file = resolved_path(s, path, home);
            let base = s.stack.last().directory();
            &&& file is Some
            &&& file == resolved_path(s, path, None)
            &&& path.components.len() > 0 && path.components[0] != current_dir()
                ==> file->0.components == base.components + path.components
        }),
{
    joined_paths_end_alike(s.stack.last().directory(), path);
}

} // verus!
