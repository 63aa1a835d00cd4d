//! Reading the sections of a configuration file.
//!
//! Files are taken in at the place where another file names them, so that what
//! comes later wins. A [`ConfigPart`] goes through the nodes of one file: it
//! says which of them to decode, and the decoded parts are then merged into the
//! [`Config`].

use vstd::prelude::*;
use crate::config::binds::{kept_binds, switch_command, Bind, Binds, SwitchBinds};
use crate::config::layout::{
    default_layout, merged_layout, BorderRule, Layout, LayoutPart, LayoutState,
};
use crate::config::node::{
    bool_of, child_errors, decode_bool, expect_no_children, expect_no_type, untyped_errors,
    DecodeError, Kind, Node, Value,
};
use crate::config::path::{FilePath, PathState};
use crate::config::session_restore::{
    builtin_states, command_states, part_states, LaunchCommandState, SessionRestore,
    SessionRestorePart,
};
use crate::config::utils::{Flag, Literal, MergeWith};
use crate::config::window_rule::WindowRule;
use crate::layout::workspace::{Output, Workspace};
use crate::text::str_eq;

verus! {

/// How deeply files can take in one another.
pub const RECURSION_LIMIT: u8 = 10;

/// The sections of a configuration file.
#[derive(Debug, Clone, Copy, PartialEq, Eq, Structural)]
pub enum Section {
    Input,
    Cursor,
    Clipboard,
    HotkeyOverlay,
    ConfigNotification,
    Appearance,
    Animations,
    Blur,
    Gestures,
    Overview,
    XwaylandSatellite,
    SessionRestore,
    SwitchEvents,
    Debug,
    Output,
    SpawnAtStartup,
    SpawnShAtStartup,
    WindowRule,
    LayerRule,
    Workspace,
    Binds,
    Environment,
    PreferNoCsd,
    EnableStacking,
    StackingMoveOverlapFirst,
    ScreenshotPath,
    Layout,
    RecentWindows,
    Include,
}

/// The section with this name.
pub open spec fn section_named(name: Seq<char>) -> Option<Section> {
    if name == "input"@ {
        Some(Section::Input)
    } else if name == "cursor"@ {
        Some(Section::Cursor)
    } else if name == "clipboard"@ {
        Some(Section::Clipboard)
    } else if name == "hotkey-overlay"@ {
        Some(Section::HotkeyOverlay)
    } else if name == "config-notification"@ {
        Some(Section::ConfigNotification)
    } else if name == "appearance"@ {
        Some(Section::Appearance)
    } else if name == "animations"@ {
        Some(Section::Animations)
    } else if name == "blur"@ {
        Some(Section::Blur)
    } else if name == "gestures"@ {
        Some(Section::Gestures)
    } else if name == "overview"@ {
        Some(Section::Overview)
    } else if name == "xwayland-satellite"@ {
        Some(Section::XwaylandSatellite)
    } else if name == "session-restore"@ {
        Some(Section::SessionRestore)
    } else if name == "switch-events"@ {
        Some(Section::SwitchEvents)
    } else if name == "debug"@ {
        Some(Section::Debug)
    } else if name == "output"@ {
        Some(Section::Output)
    } else if name == "spawn-at-startup"@ {
        Some(Section::SpawnAtStartup)
    } else if name == "spawn-sh-at-startup"@ {
        Some(Section::SpawnShAtStartup)
    } else if name == "window-rule"@ {
        Some(Section::WindowRule)
    } else if name == "layer-rule"@ {
        Some(Section::LayerRule)
    } else if name == "workspace"@ {
        Some(Section::Workspace)
    } else if name == "binds"@ {
        Some(Section::Binds)
    } else if name == "environment"@ {
        Some(Section::Environment)
    } else if name == "prefer-no-csd"@ {
        Some(Section::PreferNoCsd)
    } else if name == "enable-stacking"@ {
        Some(Section::EnableStacking)
    } else if name == "stacking-move-overlap-first"@ {
        Some(Section::StackingMoveOverlapFirst)
    } else if name == "screenshot-path"@ {
        Some(Section::ScreenshotPath)
    } else if name == "layout"@ {
        Some(Section::Layout)
    } else if name == "recent-windows"@ {
        Some(Section::RecentWindows)
    } else if name == "include"@ {
        Some(Section::Include)
    } else {
        None
    }
}

fn find_section(name: &str) -> (r: Option<Section>)
    ensures
        r == section_named(name@),
{
    if str_eq(name, "input") {
        Some(Section::Input)
    } else if str_eq(name, "cursor") {
        Some(Section::Cursor)
    } else if str_eq(name, "clipboard") {
        Some(Section::Clipboard)
    } else if str_eq(name, "hotkey-overlay") {
        Some(Section::HotkeyOverlay)
    } else if str_eq(name, "config-notification") {
        Some(Section::ConfigNotification)
    } else if str_eq(name, "appearance") {
        Some(Section::Appearance)
    } else if str_eq(name, "animations") {
        Some(Section::Animations)
    } else if str_eq(name, "blur") {
        Some(Section::Blur)
    } else if str_eq(name, "gestures") {
        Some(Section::Gestures)
    } else if str_eq(name, "overview") {
        Some(Section::Overview)
    } else if str_eq(name, "xwayland-satellite") {
        Some(Section::XwaylandSatellite)
    } else if str_eq(name, "session-restore") {
        Some(Section::SessionRestore)
    } else if str_eq(name, "switch-events") {
        Some(Section::SwitchEvents)
    } else if str_eq(name, "debug") {
        Some(Section::Debug)
    } else if str_eq(name, "output") {
        Some(Section::Output)
    } else if str_eq(name, "spawn-at-startup") {
        Some(Section::SpawnAtStartup)
    } else if str_eq(name, "spawn-sh-at-startup") {
        Some(Section::SpawnShAtStartup)
    } else if str_eq(name, "window-rule") {
        Some(Section::WindowRule)
    } else if str_eq(name, "layer-rule") {
        Some(Section::LayerRule)
    } else if str_eq(name, "workspace") {
        Some(Section::Workspace)
    } else if str_eq(name, "binds") {
        Some(Section::Binds)
    } else if str_eq(name, "environment") {
        Some(Section::Environment)
    } else if str_eq(name, "prefer-no-csd") {
        Some(Section::PreferNoCsd)
    } else if str_eq(name, "enable-stacking") {
        Some(Section::EnableStacking)
    } else if str_eq(name, "stacking-move-overlap-first") {
        Some(Section::StackingMoveOverlapFirst)
    } else if str_eq(name, "screenshot-path") {
        Some(Section::ScreenshotPath)
    } else if str_eq(name, "layout") {
        Some(Section::Layout)
    } else if str_eq(name, "recent-windows") {
        Some(Section::RecentWindows)
    } else if str_eq(name, "include") {
        Some(Section::Include)
    } else {
        None
    }
}

/// Whether a file may hold a section more than once: these add something new
/// each time.
pub open spec fn is_multipart(section: Section) -> bool {
    match section {
        Section::Output
            | Section::SpawnAtStartup
            | Section::SpawnShAtStartup
            | Section::WindowRule
            | Section::LayerRule
            | Section::Workspace
            | Section::Include => true,
        _ => false,
    }
}

fn adds_each_time(section: Section) -> (r: bool)
    ensures
        r == is_multipart(section),
{
    matches!(
        section,
        Section::Output
            | Section::SpawnAtStartup
            | Section::SpawnShAtStartup
            | Section::WindowRule
            | Section::LayerRule
            | Section::Workspace
            | Section::Include
    )
}

/// What was decoded from a section.
#[derive(Debug)]
pub enum SectionPart {
    Layout(LayoutPart),
    Binds(Binds),
    SwitchEvents(SwitchBinds),
    SessionRestore(SessionRestorePart),
    PreferNoCsd(Flag),
    EnableStacking(Flag),
    StackingMoveOverlapFirst(Flag),
    /// The switcher between recent windows, and whether it comes with binds.
    RecentWindows { part: u64, has_binds: bool },
    /// Any other section, by the number of what was decoded from it.
    Other { section: Section, part: u64 },
}

/// A part of a section that is put into effect elsewhere.
#[derive(Debug, Clone, Copy, PartialEq, Eq, Structural)]
pub struct ForeignPart {
    pub section: Section,
    /// The number of what was decoded from the section.
    pub part: u64,
    /// The binds that are there without a configuration are removed first.
    pub clears_default_binds: bool,
}

/// A configuration.
#[derive(Debug)]
pub struct Config {
    pub layout: Layout,
    pub binds: Binds,
    pub switch_events: SwitchBinds,
    pub session_restore: SessionRestore,
    pub prefer_no_csd: bool,
    /// The actions that stack windows take effect.
    pub enable_stacking: bool,
    /// A window that is a whole column goes on top of its neighbour when it is
    /// moved sideways, and not into a row of its own.
    pub stacking_move_overlap_first: bool,
    /// The parts of all other sections, in order.
    pub other: Vec<ForeignPart>,
}

/// What session restore is configured to do.
pub struct SessionRestoreState {
    pub off: bool,
    pub state_path: Option<String>,
    pub launch_commands: Seq<LaunchCommandState>,
}

/// What the switches set off.
pub struct SwitchState {
    pub lid_open: Option<Seq<String>>,
    pub lid_close: Option<Seq<String>>,
    pub tablet_mode_on: Option<Seq<String>>,
    pub tablet_mode_off: Option<Seq<String>>,
}

/// What a [`Config`] says.
pub struct ConfigState {
    pub layout: LayoutState,
    pub binds: Seq<Bind>,
    pub switch_events: SwitchState,
    pub session_restore: SessionRestoreState,
    pub prefer_no_csd: bool,
    pub enable_stacking: bool,
    pub stacking_move_overlap_first: bool,
    pub other: Seq<ForeignPart>,
}

impl View for Config {
    type V = ConfigState;

    open spec fn view(&self) -> ConfigState {
        ConfigState {
            layout: self.layout@,
            binds: self.binds.0@,
            switch_events: SwitchState {
                lid_open: switch_command(self.switch_events.lid_open),
                lid_close: switch_command(self.switch_events.lid_close),
                tablet_mode_on: switch_command(self.switch_events.tablet_mode_on),
                tablet_mode_off: switch_command(self.switch_events.tablet_mode_off),
            },
            session_restore: SessionRestoreState {
                off: self.session_restore.off,
                state_path: self.session_restore.state_path,
                launch_commands: command_states(self.session_restore.launch_commands@),
            },
            prefer_no_csd: self.prefer_no_csd,
            enable_stacking: self.enable_stacking,
            stacking_move_overlap_first: self.stacking_move_overlap_first,
            other: self.other@,
        }
    }
}

/// The configuration before any file is read.
pub open spec fn default_config() -> ConfigState {
    ConfigState {
        layout: default_layout(),
        binds: seq![],
        switch_events: SwitchState {
            lid_open: None,
            lid_close: None,
            tablet_mode_on: None,
            tablet_mode_off: None,
        },
        session_restore: SessionRestoreState {
            off: true,
            state_path: None,
            launch_commands: builtin_states(),
        },
        prefer_no_csd: false,
        enable_stacking: false,
        stacking_move_overlap_first: false,
        other: seq![],
    }
}

impl Default for Config {
    fn default() -> (r: Self)
        ensures
            r@ == default_config(),
    {
        let r = Config {
            layout: Layout::default(),
            binds: Binds(Vec::new()),
            switch_events: SwitchBinds::default(),
            session_restore: SessionRestore::default(),
            prefer_no_csd: false,
            enable_stacking: false,
            stacking_move_overlap_first: false,
            other: Vec::new(),
        };
        assert(r@.binds =~= seq![]);
        assert(r@.other =~= seq![]);
        r
    }
}

/// A layout section as it counts in the first file: one that has a border
/// section turns borders on, unless it says otherwise.
pub open spec fn root_layout(part: LayoutPart) -> LayoutPart {
    match part.border {
        Some(border) => if !border.on && !border.off {
            LayoutPart { border: Some(BorderRule { on: true, ..border }), ..part }
        } else {
            part
        },
        None => part,
    }
}

/// Whether a part gives binds to the switcher between recent windows.
pub open spec fn gives_recent_binds(part: SectionPart) -> bool {
    part matches SectionPart::RecentWindows { has_binds, .. } && has_binds
}

/// The configuration after a part. `depth` is how deeply the file was taken in,
/// and `saw_recent_binds` tells whether the switcher between recent windows was
/// given binds before.
pub open spec fn config_with(
    before: ConfigState,
    part: SectionPart,
    depth: int,
    saw_recent_binds: bool,
) -> ConfigState {
    match part {
        SectionPart::Layout(part) => ConfigState {
            layout: merged_layout(
                before.layout,
                if depth == 0 {
                    root_layout(part)
                } else {
                    part
                },
            ),
            ..before
        },
        SectionPart::Binds(new) => ConfigState {
            binds: kept_binds(before.binds, new.0@) + new.0@,
            ..before
        },
        SectionPart::SwitchEvents(part) => ConfigState {
            switch_events: SwitchState {
                lid_open: if part.lid_open is Some {
                    switch_command(part.lid_open)
                } else {
                    before.switch_events.lid_open
                },
                lid_close: if part.lid_close is Some {
                    switch_command(part.lid_close)
                } else {
                    before.switch_events.lid_close
                },
                tablet_mode_on: if part.tablet_mode_on is Some {
                    switch_command(part.tablet_mode_on)
                } else {
                    before.switch_events.tablet_mode_on
                },
                tablet_mode_off: if part.tablet_mode_off is Some {
                    switch_command(part.tablet_mode_off)
                } else {
                    before.switch_events.tablet_mode_off
                },
            },
            ..before
        },
        SectionPart::SessionRestore(part) => ConfigState {
            session_restore: SessionRestoreState {
                off: part.off || before.session_restore.off && !part.on,
                state_path: if part.state_path is Some {
                    part.state_path
                } else {
                    before.session_restore.state_path
                },
                launch_commands: if part.launch_commands@.len() > 0 {
                    part_states(part.launch_commands@)
                } else {
                    before.session_restore.launch_commands
                },
            },
            ..before
        },
        SectionPart::PreferNoCsd(flag) => ConfigState { prefer_no_csd: flag.0, ..before },
        SectionPart::EnableStacking(flag) => ConfigState { enable_stacking: flag.0, ..before },
        SectionPart::StackingMoveOverlapFirst(flag) => ConfigState {
            stacking_move_overlap_first: flag.0,
            ..before
        },
        SectionPart::RecentWindows { part, has_binds } => ConfigState {
            other: before.other.push(
                ForeignPart {
                    section: Section::RecentWindows,
                    part,
                    clears_default_binds: has_binds && !saw_recent_binds,
                },
            ),
            ..before
        },
        SectionPart::Other { section, part } => ConfigState {
            other: before.other.push(
                ForeignPart { section, part, clears_default_binds: false },
            ),
            ..before
        },
    }
}

/// Whether a configuration ends like this, given what was wrong with its files.
pub open spec fn finishes(
    config: Config,
    errors: Seq<DecodeError>,
    failed: Option<DecodeError>,
    r: Result<Config, Vec<DecodeError>>,
) -> bool {
    match r {
        Ok(done) => done == config && errors.len() == 0 && failed is None,
        Err(all) => {
            &&& errors.len() > 0 || failed is Some
            &&& all@ == (match failed {
                Some(err) => errors.push(err),
                None => errors,
            })
        },
    }
}

impl Config {
    /// Merges a decoded section into the configuration.
    pub fn apply(&mut self, part: SectionPart, depth: u8, saw_recent_binds: &mut bool)
        ensures
            final(self)@ == config_with(old(self)@, part, depth as int, *old(saw_recent_binds)),
            *final(saw_recent_binds) == (*old(saw_recent_binds) || gives_recent_binds(part)),
    {
        match part {
            SectionPart::Layout(part) => {
                let mut part = part;
                if depth == 0 {
                    turn_borders_on(&mut part);
                }
                self.layout.merge_with(&part);
            },
            SectionPart::Binds(new) => {
                self.binds.replace_with(new);
            },
            SectionPart::SwitchEvents(part) => {
                self.switch_events.merge_with(&part);
            },
            SectionPart::SessionRestore(part) => {
                self.session_restore.merge_with(&part);
            },
            SectionPart::PreferNoCsd(flag) => {
                self.prefer_no_csd.merge_with(&flag);
            },
            SectionPart::EnableStacking(flag) => {
                self.enable_stacking.merge_with(&flag);
            },
            SectionPart::StackingMoveOverlapFirst(flag) => {
                self.stacking_move_overlap_first.merge_with(&flag);
            },
            SectionPart::RecentWindows { part, has_binds } => {
                let clears_default_binds = has_binds && !*saw_recent_binds;
                if has_binds {
                    *saw_recent_binds = true;
                }
                self.other.push(
                    ForeignPart { section: Section::RecentWindows, part, clears_default_binds },
                );
            },
            SectionPart::Other { section, part } => {
                self.other.push(ForeignPart { section, part, clears_default_binds: false });
            },
        }
    }

    /// The configuration, if nothing was wrong with the files. `failed` is what
    /// kept a file from being read to its end.
    pub fn finish(self, errors: Vec<DecodeError>, failed: Option<DecodeError>) -> (r: Result<
        Config,
        Vec<DecodeError>,
    >)
        ensures
            finishes(self, errors@, failed, r),
    {
        let mut errors = errors;
        match failed {
            Some(err) => {
                errors.push(err);
                Err(errors)
            },
            None => {
                if errors.len() > 0 {
                    Err(errors)
                } else {
                    Ok(self)
                }
            },
        }
    }
}

/// Lets a border section turn borders on, unless it says otherwise.
fn turn_borders_on(part: &mut LayoutPart)
    ensures
        *final(part) == root_layout(*old(part)),
{
    if let Some(border) = part.border {
        if !border.on && !border.off {
            part.border = Some(BorderRule { on: true, ..border });
        }
    }
}

/// Goes through the nodes of one file.
#[derive(Debug)]
pub struct ConfigPart {
    seen: Vec<String>,
    depth: u8,
    stack: Vec<FilePath>,
}

/// The state of a [`ConfigPart`].
pub struct FileState {
    /// The sections that the file may not hold again.
    pub seen: Seq<Seq<char>>,
    /// How deeply the file was taken in.
    pub depth: int,
    /// The files that took in one another down to this one.
    pub stack: Seq<PathState>,
}

impl FileState {
    /// No file takes itself in, and none is too deep.
    pub open spec fn wf(self) -> bool {
        &&& 0 <= self.depth < RECURSION_LIMIT
        &&& self.stack.len() == self.depth + 1
        &&& forall|i: int, j: int|
            0 <= i < j < self.stack.len() ==> #[trigger] self.stack[i] != #[trigger] self.stack[j]
    }
}

spec fn path_views(paths: Seq<FilePath>) -> Seq<PathState> {
    Seq::new(paths.len(), |i: int| paths[i]@)
}

impl View for ConfigPart {
    type V = FileState;

    closed spec fn view(&self) -> FileState {
        FileState {
            seen: crate::text::views(self.seen@),
            depth: self.depth as int,
            stack: path_views(self.stack@),
        }
    }
}

/// The view of an optional path.
pub open spec fn path_view(path: Option<FilePath>) -> Option<PathState> {
    match path {
        Some(path) => Some(path@),
        None => None,
    }
}

/// Whether a file may not hold a node with this name again.
pub open spec fn is_duplicate(s: FileState, name: Seq<char>) -> bool {
    &&& s.seen.contains(name)
    &&& !(section_named(name) matches Some(section) && is_multipart(section))
}

/// Whether a node with this name is remembered.
pub open spec fn is_remembered(name: Seq<char>) -> bool {
    !(section_named(name) matches Some(section) && is_multipart(section))
}

/// What a node of a file that takes in another one says.
#[derive(Debug)]
pub struct IncludeNode {
    pub path: String,
    pub optional: bool,
}

/// The value and the faults of the property `optional`, as far as the first `n`
/// properties tell.
pub open spec fn optional_of(properties: Seq<(String, Value)>, n: int) -> (bool, Seq<DecodeError>)
    decreases n,
{
    if n <= 0 {
        (false, seq![])
    } else {
        let before = optional_of(properties, n - 1);
        let (name, value) = properties[n - 1];
        if name@ == "optional"@ {
            (bool_of(value).0, before.1 + bool_of(value).1)
        } else {
            (before.0, before.1.push(DecodeError::Property { name }))
        }
    }
}

/// A path, empty where it isn't a text, and what is wrong with it.
pub open spec fn path_of(value: Value) -> (Seq<char>, Seq<DecodeError>) {
    match value.literal {
        Literal::String(s) => (s@, untyped_errors(value.type_tag)),
        _ => (seq![], untyped_errors(value.type_tag).push(DecodeError::Kind(Kind::String))),
    }
}

/// What is wrong with a node that takes in another file.
pub open spec fn include_errors(node: Node) -> Seq<DecodeError> {
    path_of(node.arguments@[0]).1 + (if node.arguments@.len() > 1 {
        seq![DecodeError::Argument]
    } else {
        seq![]
    }) + optional_of(node.properties@, node.properties@.len() as int).1 + child_errors(
        node.children@,
    )
}

/// Whether a node that takes in another file is read like this.
pub open spec fn reads_include(
    node: Node,
    before: Seq<DecodeError>,
    after: Seq<DecodeError>,
    r: Result<IncludeNode, DecodeError>,
) -> bool {
    match r {
        Ok(file) => {
            &&& node.arguments@.len() > 0
            &&& file.path@ == path_of(node.arguments@[0]).0
            &&& file.optional == optional_of(node.properties@, node.properties@.len() as int).0
            &&& after == before + include_errors(node)
        },
        Err(DecodeError::MissingArgument { name }) => {
            node.arguments@.len() == 0 && name@ == "path"@ && after == before
        },
        Err(_) => false,
    }
}

/// Reads a node that takes in another file.
pub fn parse_include(node: &Node, errors: &mut Vec<DecodeError>) -> (r: Result<
    IncludeNode,
    DecodeError,
>)
    ensures
        reads_include(*node, old(errors)@, final(errors)@, r),
{
    let n: usize = node.arguments.len();
    if n == 0 {
        return Err(DecodeError::MissingArgument { name: "path".to_owned() });
    }
    let value = &node.arguments[0];
    expect_no_type(&value.type_tag, errors);
    let path = match &value.literal {
        Literal::String(s) => s.clone(),
        _ => {
            errors.push(DecodeError::Kind(Kind::String));
            String::new()
        },
    };
    assert(errors@ =~= old(errors)@ + path_of(*value).1);
    if n > 1 {
        errors.push(DecodeError::Argument);
    }
    let ghost properties = node.properties@;
    let ghost base = errors@;
    let mut optional = false;
    let m: usize = node.properties.len();
    let mut i: usize = 0;
    assert(base + optional_of(properties, 0).1 =~= base);
    while i < m
        invariant
            properties == node.properties@,
            m == properties.len(),
            i <= m,
            optional == optional_of(properties, i as int).0,
            errors@ == base + optional_of(properties, i as int).1,
        decreases m - i,
    {
        let property = &node.properties[i];
        let ghost before = optional_of(properties, i as int);
        if str_eq(property.0.as_str(), "optional") {
            optional = decode_bool(&property.1, errors);
        } else {
            errors.push(DecodeError::Property { name: property.0.clone() });
        }
        assert(errors@ =~= base + optional_of(properties, i + 1).1);
        i += 1;
    }
    expect_no_children(&node.children, errors);
    assert(errors@ =~= old(errors)@ + include_errors(*node));
    Ok(IncludeNode { path, optional })
}

/// The file that a path in another file stands for: `~` at the beginning is the
/// home directory, and a relative path begins in the directory of the other
/// file. `None` where the home directory isn't known.
pub open spec fn resolved_path(s: FileState, path: PathState, home: Option<PathState>) -> Option<
    PathState,
> {
    match path.below_home() {
        Some(rest) => match home {
            Some(home) => Some(home.joined(rest)),
            None => None,
        },
        None => Some(s.stack.last().directory().joined(path)),
    }
}

/// Why a file isn't taken in.
pub open spec fn include_fault(s: FileState, file: Option<PathState>) -> Option<DecodeError> {
    match file {
        None => Some(DecodeError::NoHome),
        Some(file) => if s.depth + 1 == RECURSION_LIMIT {
            Some(DecodeError::RecursionLimit)
        } else if !file.names_file() {
            Some(DecodeError::NoFileName)
        } else if s.stack.contains(file) {
            Some(DecodeError::RecursiveInclude)
        } else {
            None
        },
    }
}

/// What came of reading a file that was taken in.
#[derive(Debug, Clone, Copy, PartialEq, Eq, Structural)]
pub enum IncludeOutcome {
    /// It was read and understood.
    Decoded,
    /// It was read and not understood.
    NotDecoded,
    /// It does not exist, as the error with this number says.
    NotFound(u64),
    /// It can't be read, for the reason with this number.
    NotRead(u64),
}

/// What is reported of a file that was taken in.
pub open spec fn outcome_fault(optional: bool, outcome: IncludeOutcome) -> Option<DecodeError> {
    match outcome {
        IncludeOutcome::Decoded => None,
        IncludeOutcome::NotDecoded => Some(DecodeError::IncludeNotParsed),
        IncludeOutcome::NotFound(reason) => if optional {
            None
        } else {
            Some(DecodeError::IncludeNotRead(reason))
        },
        IncludeOutcome::NotRead(reason) => Some(DecodeError::IncludeNotRead(reason)),
    }
}

/// Reports what came of reading a file that was taken in. One that may be
/// missing is not reported for that.
pub fn end_include(optional: bool, outcome: IncludeOutcome, errors: &mut Vec<DecodeError>)
    ensures
        final(errors)@ == (match outcome_fault(optional, outcome) {
            Some(fault) => old(errors)@.push(fault),
            None => old(errors)@,
        }),
{
    match outcome {
        IncludeOutcome::Decoded => {},
        IncludeOutcome::NotDecoded => {
            errors.push(DecodeError::IncludeNotParsed);
        },
        IncludeOutcome::NotFound(reason) => {
            if !optional {
                errors.push(DecodeError::IncludeNotRead(reason));
            }
        },
        IncludeOutcome::NotRead(reason) => {
            errors.push(DecodeError::IncludeNotRead(reason));
        },
    }
}

/// Whether the next node of a file is read like this: as a section, or left out and reported.
pub open spec fn reads_node(
    s: FileState,
    name: String,
    errors: Seq<DecodeError>,
    after: FileState,
    reported: Seq<DecodeError>,
    r: Option<Section>,
) -> bool {
    if is_duplicate(s, name@) {
        &&& r is None
        &&& after == s
        &&& reported == errors.push(DecodeError::DuplicateNode { name })
    } else {
        &&& r == section_named(name@)
        &&& after == (FileState {
            seen: if is_remembered(name@) {
                s.seen.push(name@)
            } else {
                s.seen
            },
            ..s
        })
        &&& reported == (if r is None {
            errors.push(DecodeError::Node { name })
        } else {
            errors
        })
    }
}

/// Whether a file takes in another one like this, or reports why it doesn't. What is listed
/// and what is reported are given before and after.
pub open spec fn begins_include(
    s: FileState,
    file: Option<PathState>,
    before: (Seq<FilePath>, Seq<DecodeError>),
    after: (Seq<FilePath>, Seq<DecodeError>),
    r: Option<ConfigPart>,
) -> bool {
    match include_fault(s, file) {
        Some(fault) => {
            &&& r is None
            &&& after.1 == before.1.push(fault)
            &&& after.0 == before.0
        },
        None => {
            &&& r is Some
            &&& r->0@ == (FileState {
                seen: seq![],
                depth: s.depth + 1,
                stack: s.stack.push(file->0),
            })
            &&& r->0@.wf()
            &&& after.1 == before.1
            &&& after.0.len() == before.0.len() + 1
            &&& after.0.drop_last() == before.0
            &&& after.0.last()@ == file->0
        },
    }
}

impl ConfigPart {
    /// Begins with the first file.
    pub fn new(path: FilePath) -> (r: Self)
        ensures
            r@ == (FileState { seen: seq![], depth: 0, stack: seq![path@] }),
            r@.wf(),
    {
        let r = ConfigPart { seen: Vec::new(), depth: 0, stack: vec![path] };
        proof {
            assert(r@.seen =~= seq![]);
            assert(r@.stack =~= seq![path@]);
        }
        r
    }

    /// How deeply the file was taken in.
    pub fn depth(&self) -> (r: u8)
        ensures
            r == self@.depth,
    {
        self.depth
    }

    /// Decides what to do with the next node: decode it as a section, or leave
    /// it out and report it.
    pub fn next_node(
        &mut self,
        name: &String,
        errors: &mut Vec<DecodeError>,
    ) -> (r: Option<Section>)
        requires
            old(self)@.wf(),
        ensures
            final(self)@.wf(),
            reads_node(old(self)@, *name, old(errors)@, final(self)@, final(errors)@, r),
    {
        let section = find_section(name.as_str());
        let multipart = match section {
            Some(section) => adds_each_time(section),
            None => false,
        };
        if !multipart {
            if crate::text::contains_str(&self.seen, name.as_str()) {
                errors.push(DecodeError::DuplicateNode { name: name.clone() });
                return None;
            }
            self.seen.push(name.clone());
            assert(self@.seen =~= old(self)@.seen.push(name@));
        }
        if section.is_none() {
            errors.push(DecodeError::Node { name: name.clone() });
        }
        section
    }

    /// Whether a file is among those that took in one another.
    fn is_on_stack(&self, path: &FilePath) -> (r: bool)
        ensures
            r == self@.stack.contains(path@),
    {
        let mut i: usize = 0;
        while i < self.stack.len()
            invariant
                i <= self.stack@.len(),
                forall|j: int| 0 <= j < i ==> self@.stack[j] != path@,
            decreases self.stack@.len() - i,
        {
            assert(self@.stack[i as int] == self.stack@[i as int]@);
            if self.stack[i].same(path) {
                assert(self@.stack[i as int] == path@);
                return true;
            }
            i += 1;
        }
        assert forall|j: int| 0 <= j < self@.stack.len() implies self@.stack[j] != path@ by {}
        false
    }

    /// The file that a path in this file stands for.
    fn resolve(&self, path: &FilePath, home: &Option<FilePath>) -> (r: Option<FilePath>)
        requires
            self@.wf(),
        ensures
            path_view(r) == resolved_path(self@, path@, path_view(*home)),
    {
        match path.strip_home() {
            Some(rest) => match home {
                Some(home) => Some(home.join(&rest)),
                None => None,
            },
            None => {
                let n: usize = self.stack.len();
                assert(self@.stack.len() == n);
                assert(self@.stack.last() == self.stack@[n - 1]@);
                Some(self.stack[n - 1].directory().join(path))
            },
        }
    }

    /// Begins with a file that this one takes in, or reports why it isn't taken
    /// in. A file that is taken in is listed, also where it can't be read then.
    pub fn begin_include(
        &self,
        path: &FilePath,
        home: &Option<FilePath>,
        includes: &mut Vec<FilePath>,
        errors: &mut Vec<DecodeError>,
    ) -> (r: Option<ConfigPart>)
        requires
            self@.wf(),
        ensures
            begins_include(
                self@,
                resolved_path(self@, path@, path_view(*home)),
                (old(includes)@, old(errors)@),
                (final(includes)@, final(errors)@),
                r,
            ),
    {
        let file = match self.resolve(path, home) {
            Some(file) => file,
            None => {
                errors.push(DecodeError::NoHome);
                return None;
            },
        };
        let depth: u8 = self.depth + 1;
        if depth == RECURSION_LIMIT {
            errors.push(DecodeError::RecursionLimit);
            return None;
        }
        if !file.names_file() {
            errors.push(DecodeError::NoFileName);
            return None;
        }
        if self.is_on_stack(&file) {
            errors.push(DecodeError::RecursiveInclude);
            return None;
        }
        let mut stack: Vec<FilePath> = Vec::new();
        let mut i: usize = 0;
        while i < self.stack.len()
            invariant
                i <= self.stack@.len(),
                stack@.len() == i,
                forall|j: int| 0 <= j < i ==> (#[trigger] stack@[j])@ == self@.stack[j],
            decreases self.stack@.len() - i,
        {
            assert(self@.stack[i as int] == self.stack@[i as int]@);
            stack.push(self.stack[i].copy());
            i += 1;
        }
        stack.push(file.copy());
        let ghost taken = file@;
        includes.push(file);
        assert(includes@.drop_last() =~= old(includes)@);
        let r = ConfigPart { seen: Vec::new(), depth, stack };
        proof {
            assert(r@.seen =~= seq![]);
            assert(r@.stack =~= self@.stack.push(taken));
            assert forall|a: int, b: int| 0 <= a < b < r@.stack.len() implies #[trigger] r@.stack[a]
                != #[trigger] r@.stack[b] by {
                if b == self@.stack.len() {
                    assert(self@.stack[a] != taken);
                } else {
                    assert(self@.stack[a] != self@.stack[b]);
                }
            }
        }
        Some(r)
    }
}

/// In the first file a border section decides alone whether there are borders:
/// it turns them on unless it says `off` only. Elsewhere an empty one changes
/// nothing.
pub proof fn border_section_turns_borders_on(before: ConfigState, part: LayoutPart, depth: int)
    ensures
        ({
            let after = config_with(before, SectionPart::Layout(part), depth, false);
            after.layout.border.off == (match part.border {
                Some(border) => if depth == 0 {
                    border.off && !border.on
                } else {
                    (before.layout.border.off || border.off) && !border.on
                },
                None => before.layout.border.off,
            })
        }),
{
}

/// A section that isn't one of many is decoded once in a file: its name isn't
/// admitted again.
pub proof fn section_is_decoded_once(s: FileState, name: Seq<char>)
    requires
        !is_duplicate(s, name),
        is_remembered(name),
    ensures
        is_duplicate(FileState { seen: s.seen.push(name), ..s }, name),
{
    assert(s.seen.push(name)[s.seen.len() as int] == name);
}

} // verus!
