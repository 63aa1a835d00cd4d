//! Configuration of the layout.

use vstd::prelude::*;
use crate::config::node::{expect_only_children, only_children_errors, DecodeError, Node};
use crate::config::utils::{Flag, FloatOrInt, MergeWith, Number};
use crate::ipc::{ColumnDisplay, OpenInFixedSide};
use crate::text::{clone_strings, str_eq, views};

verus! {

/// One third, as the bit pattern of a double.
pub const ONE_THIRD: u64 = 0x3FD5_5555_5555_5555;

/// One half, as the bit pattern of a double.
pub const ONE_HALF: u64 = 0x3FE0_0000_0000_0000;

/// Two thirds, as the bit pattern of a double.
pub const TWO_THIRDS: u64 = 0x3FE5_5555_5555_5555;

/// One fifth, as the bit pattern of a double.
pub const ONE_FIFTH: u64 = 0x3FC9_9999_9999_999A;

/// A width or a height to choose.
#[derive(Debug, Clone, Copy, PartialEq, Eq, Structural)]
pub enum PresetSize {
    /// A part of the view, as the bit pattern of a double.
    Proportion(u64),
    /// A size in logical pixels.
    Fixed(i32),
}

/// A default size; `None` leaves the choice to the window.
#[derive(Debug, Clone, Copy, PartialEq, Eq, Structural)]
pub struct DefaultPresetSize(pub Option<PresetSize>);

/// What is wrong with the node of a default size, besides its first child.
pub open spec fn default_size_errors(node: Node) -> Seq<DecodeError> {
    only_children_errors(node) + (if node.children@.len() > 1 {
        seq![DecodeError::Node { name: node.children@[1].name }]
    } else {
        seq![]
    })
}

/// A default size, given what came of reading the first child of its node.
pub open spec fn default_size_of(child: Option<Result<PresetSize, DecodeError>>) -> Result<
    DefaultPresetSize,
    DecodeError,
> {
    match child {
        Some(Ok(size)) => Ok(DefaultPresetSize(Some(size))),
        Some(Err(e)) => Err(e),
        None => Ok(DefaultPresetSize(None)),
    }
}

impl DefaultPresetSize {
    /// Reads a default size, given what came of reading the first child of the
    /// node. A node without children leaves the choice to the window.
    pub fn decode_node(
        node: &Node,
        child: Option<Result<PresetSize, DecodeError>>,
        errors: &mut Vec<DecodeError>,
    ) -> (r: Result<DefaultPresetSize, DecodeError>)
        requires
            child is Some <==> node.children@.len() > 0,
        ensures
            final(errors)@ == old(errors)@ + default_size_errors(*node),
            r == default_size_of(child),
    {
        expect_only_children(node, errors);
        if node.children.len() > 1 {
            let name = node.children[1].name.clone();
            errors.push(DecodeError::Node { name });
        }
        assert(errors@ =~= old(errors)@ + default_size_errors(*node));
        match child {
            Some(Ok(size)) => Ok(DefaultPresetSize(Some(size))),
            Some(Err(e)) => Err(e),
            None => Ok(DefaultPresetSize(None)),
        }
    }
}

/// Space at the edges of an output that columns leave free.
#[derive(Debug, Clone, Copy, PartialEq, Eq, Structural)]
pub struct Struts {
    pub left: FloatOrInt,
    pub right: FloatOrInt,
    pub top: FloatOrInt,
    pub bottom: FloatOrInt,
}

impl Default for Struts {
    fn default() -> (r: Self)
        ensures
            r.left == FloatOrInt(Number::Int(0)),
            r.right == FloatOrInt(Number::Int(0)),
            r.top == FloatOrInt(Number::Int(0)),
            r.bottom == FloatOrInt(Number::Int(0)),
    {
        Struts {
            left: FloatOrInt(Number::Int(0)),
            right: FloatOrInt(Number::Int(0)),
            top: FloatOrInt(Number::Int(0)),
            bottom: FloatOrInt(Number::Int(0)),
        }
    }
}

/// When the focused column is centered.
#[derive(Debug, Clone, Copy, PartialEq, Eq, Structural)]
pub enum CenterFocusedColumn {
    /// Focusing a column doesn't center it.
    Never,
    /// The focused column is always centered.
    Always,
    /// A column is centered where it doesn't fit on the screen together with
    /// the one that was focused before.
    OnOverflow,
}

impl Default for CenterFocusedColumn {
    fn default() -> (r: Self)
        ensures
            r is Never,
    {
        CenterFocusedColumn::Never
    }
}

/// Applications that are terminals.
#[derive(Debug)]
pub struct TerminalAppIds(pub Vec<String>);

/// Applications that are media players.
#[derive(Debug)]
pub struct MediaPlayerAppIds(pub Vec<String>);

/// The panel for media players: a side, or none.
#[derive(Debug, Clone, Copy, PartialEq, Eq, Structural)]
pub struct MediaPlayerFixedSide(pub Option<OpenInFixedSide>);

/// What the name of a panel for media players says.
pub open spec fn media_player_side(s: Seq<char>) -> Option<Option<OpenInFixedSide>> {
    if s == "left"@ {
        Some(Some(OpenInFixedSide::Left))
    } else if s == "right"@ {
        Some(Some(OpenInFixedSide::Right))
    } else if s == "none"@ || s == "off"@ {
        Some(None)
    } else {
        None
    }
}

impl MediaPlayerFixedSide {
    pub fn to_option(self) -> (r: Option<OpenInFixedSide>)
        ensures
            r == self.0,
    {
        self.0
    }

    /// Reads the name of a side; `none` and `off` turn the panel off.
    pub fn from_str(s: &str) -> (r: Result<Self, &'static str>)
        ensures
            match media_player_side(s@) {
                Some(side) => r == Ok::<_, &'static str>(MediaPlayerFixedSide(side)),
                None => r is Err && r->Err_0@
                    == "invalid media-player fixed side, can be \"left\", \"right\", or \"none\""@,
            },
    {
        if str_eq(s, "left") {
            Ok(MediaPlayerFixedSide(Some(OpenInFixedSide::Left)))
        } else if str_eq(s, "right") {
            Ok(MediaPlayerFixedSide(Some(OpenInFixedSide::Right)))
        } else if str_eq(s, "none") || str_eq(s, "off") {
            Ok(MediaPlayerFixedSide(None))
        } else {
            Err("invalid media-player fixed side, can be \"left\", \"right\", or \"none\"")
        }
    }
}

/// Whether windows have a border.
#[derive(Debug, Clone, Copy, PartialEq, Eq, Structural)]
pub struct Border {
    pub off: bool,
}

/// A border section of one file.
#[derive(Debug, Clone, Copy, PartialEq, Eq, Structural)]
pub struct BorderRule {
    pub off: bool,
    pub on: bool,
}

impl MergeWith<BorderRule> for Border {
    open spec fn merges_to(&self, part: &BorderRule, after: &Self) -> bool {
        after.off == ((self.off || part.off) && !part.on)
    }

    fn merge_with(&mut self, part: &BorderRule) {
        if part.off {
            self.off = true;
        }
        if part.on {
            self.off = false;
        }
    }
}

/// The layout section as it is in effect.
#[derive(Debug)]
pub struct Layout {
    /// The sections that say how focus rings look, in the order in which they
    /// were merged. A section is held as a number; sections that say the same
    /// have the same number.
    pub focus_ring: Vec<u64>,
    pub border: Border,
    /// The sections that say how borders look, besides whether there are any.
    pub border_style: Vec<u64>,
    /// The sections that say how shadows look.
    pub shadow: Vec<u64>,
    /// The sections that say how the tabs of a column are shown.
    pub tab_indicator: Vec<u64>,
    /// The sections that say how the place for a moved window is shown.
    pub insert_hint: Vec<u64>,
    pub preset_column_widths: Vec<PresetSize>,
    pub default_column_width: Option<PresetSize>,
    pub preset_window_heights: Vec<PresetSize>,
    pub center_focused_column: CenterFocusedColumn,
    pub always_center_single_column: bool,
    /// The row of columns doesn't scroll: all columns fit between the panels.
    pub disable_carousel: bool,
    /// After a change, columns that fit are centered as a group, and a view
    /// over columns that don't fit leaves no empty space at an edge.
    pub auto_fit_or_center: bool,
    pub empty_workspace_above_first: bool,
    pub default_column_display: ColumnDisplay,
    pub gaps: Number,
    pub struts: Struts,
    /// The color behind the windows, as a number; `None` is the usual one.
    pub background_color: Option<u64>,
    /// Applications that open narrower on ultrawide outputs.
    pub terminal_app_ids: Vec<String>,
    /// The width on ultrawide outputs where there is no default width.
    pub ultrawide_default_column_width: PresetSize,
    /// The width of terminals on ultrawide outputs where there is no default
    /// width.
    pub ultrawide_terminal_column_width: PresetSize,
    /// Applications that open at a width of their own and in a panel.
    pub media_player_app_ids: Vec<String>,
    pub media_player_column_width: PresetSize,
    /// The width of media players on ultrawide outputs.
    pub media_player_ultrawide_column_width: PresetSize,
    /// The panel that media players open in.
    pub media_player_open_in_fixed_side: Option<OpenInFixedSide>,
}

/// What a [`Layout`] says.
pub struct LayoutState {
    pub focus_ring: Seq<u64>,
    pub border: Border,
    pub border_style: Seq<u64>,
    pub shadow: Seq<u64>,
    pub tab_indicator: Seq<u64>,
    pub insert_hint: Seq<u64>,
    pub preset_column_widths: Seq<PresetSize>,
    pub default_column_width: Option<PresetSize>,
    pub preset_window_heights: Seq<PresetSize>,
    pub center_focused_column: CenterFocusedColumn,
    pub always_center_single_column: bool,
    pub disable_carousel: bool,
    pub auto_fit_or_center: bool,
    pub empty_workspace_above_first: bool,
    pub default_column_display: ColumnDisplay,
    pub gaps: Number,
    pub struts: Struts,
    pub background_color: Option<u64>,
    pub terminal_app_ids: Seq<String>,
    pub ultrawide_default_column_width: PresetSize,
    pub ultrawide_terminal_column_width: PresetSize,
    pub media_player_app_ids: Seq<String>,
    pub media_player_column_width: PresetSize,
    pub media_player_ultrawide_column_width: PresetSize,
    pub media_player_open_in_fixed_side: Option<OpenInFixedSide>,
}

impl View for Layout {
    type V = LayoutState;

    open spec fn view(&self) -> LayoutState {
        LayoutState {
            focus_ring: self.focus_ring@,
            border: self.border,
            border_style: self.border_style@,
            shadow: self.shadow@,
            tab_indicator: self.tab_indicator@,
            insert_hint: self.insert_hint@,
            preset_column_widths: self.preset_column_widths@,
            default_column_width: self.default_column_width,
            preset_window_heights: self.preset_window_heights@,
            center_focused_column: self.center_focused_column,
            always_center_single_column: self.always_center_single_column,
            disable_carousel: self.disable_carousel,
            auto_fit_or_center: self.auto_fit_or_center,
            empty_workspace_above_first: self.empty_workspace_above_first,
            default_column_display: self.default_column_display,
            gaps: self.gaps,
            struts: self.struts,
            background_color: self.background_color,
            terminal_app_ids: self.terminal_app_ids@,
            ultrawide_default_column_width: self.ultrawide_default_column_width,
            ultrawide_terminal_column_width: self.ultrawide_terminal_column_width,
            media_player_app_ids: self.media_player_app_ids@,
            media_player_column_width: self.media_player_column_width,
            media_player_ultrawide_column_width: self.media_player_ultrawide_column_width,
            media_player_open_in_fixed_side: self.media_player_open_in_fixed_side,
        }
    }
}

/// The layout section of one file.
#[derive(Debug)]
pub struct LayoutPart {
    /// What the section says of the focus ring, as a number: sections that say the
    /// same have the same number.
    pub focus_ring: Option<u64>,
    pub border: Option<BorderRule>,
    /// What the section says of the look of borders, as a number.
    pub border_style: Option<u64>,
    /// What the section says of shadows, as a number.
    pub shadow: Option<u64>,
    /// What the section says of the tabs of a column, as a number.
    pub tab_indicator: Option<u64>,
    /// What the section says of the place for a moved window, as a number.
    pub insert_hint: Option<u64>,
    pub preset_column_widths: Option<Vec<PresetSize>>,
    pub default_column_width: Option<DefaultPresetSize>,
    pub preset_window_heights: Option<Vec<PresetSize>>,
    pub center_focused_column: Option<CenterFocusedColumn>,
    pub always_center_single_column: Option<Flag>,
    pub disable_carousel: Option<Flag>,
    pub auto_fit_or_center: Option<Flag>,
    pub empty_workspace_above_first: Option<Flag>,
    pub default_column_display: Option<ColumnDisplay>,
    pub gaps: Option<FloatOrInt>,
    pub struts: Option<Struts>,
    /// The color behind the windows, as a number.
    pub background_color: Option<u64>,
    pub terminal_app_ids: Option<TerminalAppIds>,
    pub ultrawide_default_column_width: Option<DefaultPresetSize>,
    pub ultrawide_terminal_column_width: Option<DefaultPresetSize>,
    pub media_player_app_ids: Option<MediaPlayerAppIds>,
    pub media_player_column_width: Option<DefaultPresetSize>,
    pub media_player_ultrawide_column_width: Option<DefaultPresetSize>,
    pub media_player_open_in_fixed_side: Option<MediaPlayerFixedSide>,
}

impl Default for LayoutPart {
    fn default() -> (r: Self)
        ensures
            is_empty_part(r),
    {
        LayoutPart {
            focus_ring: None,
            border: None,
            border_style: None,
            shadow: None,
            tab_indicator: None,
            insert_hint: None,
            preset_column_widths: None,
            default_column_width: None,
            preset_window_heights: None,
            center_focused_column: None,
            always_center_single_column: None,
            disable_carousel: None,
            auto_fit_or_center: None,
            empty_workspace_above_first: None,
            default_column_display: None,
            gaps: None,
            struts: None,
            background_color: None,
            terminal_app_ids: None,
            ultrawide_default_column_width: None,
            ultrawide_terminal_column_width: None,
            media_player_app_ids: None,
            media_player_column_width: None,
            media_player_ultrawide_column_width: None,
            media_player_open_in_fixed_side: None,
        }
    }
}

/// The sizes of a list that may be missing.
pub open spec fn preset_view(list: Option<Vec<PresetSize>>) -> Option<Seq<PresetSize>> {
    match list {
        Some(l) => Some(l@),
        None => None,
    }
}

/// The names in a list that may be missing.
pub open spec fn terminals_view(ids: Option<TerminalAppIds>) -> Option<Seq<Seq<char>>> {
    match ids {
        Some(l) => Some(views(l.0@)),
        None => None,
    }
}

/// The names in a list that may be missing.
pub open spec fn media_players_view(ids: Option<MediaPlayerAppIds>) -> Option<Seq<Seq<char>>> {
    match ids {
        Some(l) => Some(views(l.0@)),
        None => None,
    }
}

/// Whether two sections set the same.
pub open spec fn same_part(a: LayoutPart, b: LayoutPart) -> bool {
    &&& a.focus_ring == b.focus_ring
    &&& a.border == b.border
    &&& a.border_style == b.border_style
    &&& a.shadow == b.shadow
    &&& a.tab_indicator == b.tab_indicator
    &&& a.insert_hint == b.insert_hint
    &&& a.background_color == b.background_color
    &&& a.default_column_width == b.default_column_width
    &&& a.center_focused_column == b.center_focused_column
    &&& a.always_center_single_column == b.always_center_single_column
    &&& a.disable_carousel == b.disable_carousel
    &&& a.auto_fit_or_center == b.auto_fit_or_center
    &&& a.empty_workspace_above_first == b.empty_workspace_above_first
    &&& a.default_column_display == b.default_column_display
    &&& a.gaps == b.gaps
    &&& a.struts == b.struts
    &&& a.ultrawide_default_column_width == b.ultrawide_default_column_width
    &&& a.ultrawide_terminal_column_width == b.ultrawide_terminal_column_width
    &&& a.media_player_column_width == b.media_player_column_width
    &&& a.media_player_ultrawide_column_width == b.media_player_ultrawide_column_width
    &&& a.media_player_open_in_fixed_side == b.media_player_open_in_fixed_side
    &&& preset_view(a.preset_column_widths) == preset_view(b.preset_column_widths)
    &&& preset_view(a.preset_window_heights) == preset_view(b.preset_window_heights)
    &&& terminals_view(a.terminal_app_ids) == terminals_view(b.terminal_app_ids)
    &&& media_players_view(a.media_player_app_ids) == media_players_view(b.media_player_app_ids)
}

/// Whether two sections, each of which may be missing, set the same.
pub open spec fn same_parts(a: Option<LayoutPart>, b: Option<LayoutPart>) -> bool {
    match (a, b) {
        (Some(a), Some(b)) => same_part(a, b),
        (None, None) => true,
        _ => false,
    }
}

fn same_sizes(a: &Vec<PresetSize>, b: &Vec<PresetSize>) -> (r: bool)
    ensures
        r == (a@ == b@),
{
    if a.len() != b.len() {
        return false;
    }
    let mut i: usize = 0;
    while i < a.len()
        invariant
            a@.len() == b@.len(),
            i <= a@.len(),
            forall|j: int| 0 <= j < i ==> a@[j] == b@[j],
        decreases a@.len() - i,
    {
        if a[i] != b[i] {
            return false;
        }
        i += 1;
    }
    assert(a@ =~= b@);
    true
}

fn same_presets(a: &Option<Vec<PresetSize>>, b: &Option<Vec<PresetSize>>) -> (r: bool)
    ensures
        r == (preset_view(*a) == preset_view(*b)),
{
    match (a, b) {
        (Some(a), Some(b)) => same_sizes(a, b),
        (None, None) => true,
        _ => false,
    }
}

fn same_strings(a: &Vec<String>, b: &Vec<String>) -> (r: bool)
    ensures
        r == (views(a@) == views(b@)),
{
    if a.len() != b.len() {
        assert(views(a@).len() != views(b@).len());
        return false;
    }
    let mut i: usize = 0;
    while i < a.len()
        invariant
            a@.len() == b@.len(),
            i <= a@.len(),
            forall|j: int| 0 <= j < i ==> a@[j]@ == b@[j]@,
        decreases a@.len() - i,
    {
        if !str_eq(a[i].as_str(), b[i].as_str()) {
            assert(views(a@)[i as int] != views(b@)[i as int]);
            return false;
        }
        i += 1;
    }
    assert(views(a@) =~= views(b@));
    true
}

impl LayoutPart {
    /// Whether two sections set the same.
    pub fn same(&self, other: &LayoutPart) -> (r: bool)
        ensures
            r == same_part(*self, *other),
    {
        let terminals = match (&self.terminal_app_ids, &other.terminal_app_ids) {
            (Some(a), Some(b)) => same_strings(&a.0, &b.0),
            (None, None) => true,
            _ => false,
        };
        let players = match (&self.media_player_app_ids, &other.media_player_app_ids) {
            (Some(a), Some(b)) => same_strings(&a.0, &b.0),
            (None, None) => true,
            _ => false,
        };
        self.focus_ring == other.focus_ring
            && self.border == other.border
            && self.border_style == other.border_style
            && self.shadow == other.shadow
            && self.tab_indicator == other.tab_indicator
            && self.insert_hint == other.insert_hint
            && self.background_color == other.background_color
            && self.default_column_width == other.default_column_width
            && self.center_focused_column == other.center_focused_column
            && self.always_center_single_column == other.always_center_single_column
            && self.disable_carousel == other.disable_carousel
            && self.auto_fit_or_center == other.auto_fit_or_center
            && self.empty_workspace_above_first == other.empty_workspace_above_first
            && self.default_column_display == other.default_column_display
            && self.gaps == other.gaps
            && self.struts == other.struts
            && self.ultrawide_default_column_width == other.ultrawide_default_column_width
            && self.ultrawide_terminal_column_width == other.ultrawide_terminal_column_width
            && self.media_player_column_width == other.media_player_column_width
            && self.media_player_ultrawide_column_width == other.media_player_ultrawide_column_width
            && self.media_player_open_in_fixed_side == other.media_player_open_in_fixed_side
            && same_presets(&self.preset_column_widths, &other.preset_column_widths)
            && same_presets(&self.preset_window_heights, &other.preset_window_heights)
            && terminals && players
    }
}

/// Whether a section sets nothing.
pub open spec fn is_empty_part(part: LayoutPart) -> bool {
    &&& part.focus_ring is None
    &&& part.border is None
    &&& part.border_style is None
    &&& part.shadow is None
    &&& part.tab_indicator is None
    &&& part.insert_hint is None
    &&& part.background_color is None
    &&& part.preset_column_widths is None
    &&& part.default_column_width is None
    &&& part.preset_window_heights is None
    &&& part.center_focused_column is None
    &&& part.always_center_single_column is None
    &&& part.disable_carousel is None
    &&& part.auto_fit_or_center is None
    &&& part.empty_workspace_above_first is None
    &&& part.default_column_display is None
    &&& part.gaps is None
    &&& part.struts is None
    &&& part.terminal_app_ids is None
    &&& part.ultrawide_default_column_width is None
    &&& part.ultrawide_terminal_column_width is None
    &&& part.media_player_app_ids is None
    &&& part.media_player_column_width is None
    &&& part.media_player_ultrawide_column_width is None
    &&& part.media_player_open_in_fixed_side is None
}

/// The sizes to choose from where none are configured.
pub open spec fn default_presets() -> Seq<PresetSize> {
    seq![
        PresetSize::Proportion(ONE_THIRD),
        PresetSize::Proportion(ONE_HALF),
        PresetSize::Proportion(TWO_THIRDS),
    ]
}

fn default_preset_list() -> (r: Vec<PresetSize>)
    ensures
        r@ == default_presets(),
{
    let r = vec![
        PresetSize::Proportion(ONE_THIRD),
        PresetSize::Proportion(ONE_HALF),
        PresetSize::Proportion(TWO_THIRDS),
    ];
    assert(r@ =~= default_presets());
    r
}

/// The layout without a configuration.
pub open spec fn default_layout() -> LayoutState {
    let none = FloatOrInt(Number::Int(0));
    LayoutState {
        focus_ring: seq![],
        border: Border { off: true },
        border_style: seq![],
        shadow: seq![],
        tab_indicator: seq![],
        insert_hint: seq![],
        preset_column_widths: default_presets(),
        default_column_width: Some(PresetSize::Proportion(ONE_HALF)),
        preset_window_heights: default_presets(),
        center_focused_column: CenterFocusedColumn::Never,
        always_center_single_column: false,
        disable_carousel: false,
        auto_fit_or_center: false,
        empty_workspace_above_first: false,
        default_column_display: ColumnDisplay::Normal,
        gaps: Number::Int(16),
        struts: Struts { left: none, right: none, top: none, bottom: none },
        background_color: None,
        terminal_app_ids: seq![],
        ultrawide_default_column_width: PresetSize::Proportion(ONE_THIRD),
        ultrawide_terminal_column_width: PresetSize::Proportion(ONE_FIFTH),
        media_player_app_ids: seq![],
        media_player_column_width: PresetSize::Proportion(ONE_THIRD),
        media_player_ultrawide_column_width: PresetSize::Proportion(ONE_FIFTH),
        media_player_open_in_fixed_side: Some(OpenInFixedSide::Left),
    }
}

impl Default for Layout {
    fn default() -> (r: Self)
        ensures
            r@ == default_layout(),
    {
        Layout {
            focus_ring: Vec::new(),
            border: Border { off: true },
            border_style: Vec::new(),
            shadow: Vec::new(),
            tab_indicator: Vec::new(),
            insert_hint: Vec::new(),
            preset_column_widths: default_preset_list(),
            default_column_width: Some(PresetSize::Proportion(ONE_HALF)),
            preset_window_heights: default_preset_list(),
            center_focused_column: CenterFocusedColumn::Never,
            always_center_single_column: false,
            disable_carousel: false,
            auto_fit_or_center: false,
            empty_workspace_above_first: false,
            default_column_display: ColumnDisplay::Normal,
            gaps: Number::Int(16),
            struts: Struts::default(),
            background_color: None,
            terminal_app_ids: Vec::new(),
            ultrawide_default_column_width: PresetSize::Proportion(ONE_THIRD),
            ultrawide_terminal_column_width: PresetSize::Proportion(ONE_FIFTH),
            media_player_app_ids: Vec::new(),
            media_player_column_width: PresetSize::Proportion(ONE_THIRD),
            media_player_ultrawide_column_width: PresetSize::Proportion(ONE_FIFTH),
            media_player_open_in_fixed_side: Some(OpenInFixedSide::Left),
        }
    }
}

impl Layout {
    /// A layout that says the same.
    pub fn copy(&self) -> (r: Layout)
        ensures
            r@ == self@,
    {
        let widths = self.preset_column_widths.clone();
        let heights = self.preset_window_heights.clone();
        assert(widths@ =~= self.preset_column_widths@);
        assert(heights@ =~= self.preset_window_heights@);
        Layout {
            focus_ring: copied_sections(&self.focus_ring),
            border: self.border,
            border_style: copied_sections(&self.border_style),
            shadow: copied_sections(&self.shadow),
            tab_indicator: copied_sections(&self.tab_indicator),
            insert_hint: copied_sections(&self.insert_hint),
            preset_column_widths: widths,
            default_column_width: self.default_column_width,
            preset_window_heights: heights,
            center_focused_column: self.center_focused_column,
            always_center_single_column: self.always_center_single_column,
            disable_carousel: self.disable_carousel,
            auto_fit_or_center: self.auto_fit_or_center,
            empty_workspace_above_first: self.empty_workspace_above_first,
            default_column_display: self.default_column_display,
            gaps: self.gaps,
            struts: self.struts,
            background_color: self.background_color,
            terminal_app_ids: clone_strings(&self.terminal_app_ids),
            ultrawide_default_column_width: self.ultrawide_default_column_width,
            ultrawide_terminal_column_width: self.ultrawide_terminal_column_width,
            media_player_app_ids: clone_strings(&self.media_player_app_ids),
            media_player_column_width: self.media_player_column_width,
            media_player_ultrawide_column_width: self.media_player_ultrawide_column_width,
            media_player_open_in_fixed_side: self.media_player_open_in_fixed_side,
        }
    }
}

/// A flag after a part that may set it.
pub open spec fn flag_after(before: bool, part: Option<Flag>) -> bool {
    match part {
        Some(flag) => flag.0,
        None => before,
    }
}

/// A size to choose from after a part: never an empty list.
pub open spec fn presets_after(before: Seq<PresetSize>, part: Option<Vec<PresetSize>>) -> Seq<
    PresetSize,
> {
    let presets = match part {
        Some(list) => list@,
        None => before,
    };
    if presets.len() == 0 {
        default_presets()
    } else {
        presets
    }
}

/// A width after a part, which can set it but not unset it.
pub open spec fn width_after(before: PresetSize, part: Option<DefaultPresetSize>) -> PresetSize {
    match part {
        Some(DefaultPresetSize(Some(width))) => width,
        _ => before,
    }
}

fn merged_flag(before: bool, part: Option<Flag>) -> (r: bool)
    ensures
        r == flag_after(before, part),
{
    match part {
        Some(flag) => flag.0,
        None => before,
    }
}

fn merged_width(before: PresetSize, part: Option<DefaultPresetSize>) -> (r: PresetSize)
    ensures
        r == width_after(before, part),
{
    match part {
        Some(DefaultPresetSize(Some(width))) => width,
        _ => before,
    }
}

fn merge_presets(presets: &mut Vec<PresetSize>, part: &Option<Vec<PresetSize>>)
    ensures
        final(presets)@ == presets_after(old(presets)@, *part),
{
    if let Some(list) = part {
        let list: &Vec<PresetSize> = list;
        let copy = list.clone();
        assert(copy@ =~= list@);
        *presets = copy;
    }
    if presets.len() == 0 {
        *presets = default_preset_list();
    }
}

/// Sections after a part that may add one. The section that came last isn't added
/// again.
pub open spec fn sections_after(before: Seq<u64>, part: Option<u64>) -> Seq<u64> {
    match part {
        Some(section) => if before.len() > 0 && before.last() == section {
            before
        } else {
            before.push(section)
        },
        None => before,
    }
}

fn merge_section(sections: &mut Vec<u64>, part: Option<u64>)
    ensures
        final(sections)@ == sections_after(old(sections)@, part),
{
    if let Some(section) = part {
        let n: usize = sections.len();
        if n == 0 || sections[n - 1] != section {
            sections.push(section);
        }
    }
}

fn copied_sections(sections: &Vec<u64>) -> (r: Vec<u64>)
    ensures
        r@ == sections@,
{
    let r = sections.clone();
    assert(r@ =~= sections@);
    r
}

fn merge_border(border: &mut Border, part: Option<BorderRule>)
    ensures
        *final(border) == border_after(*old(border), part),
{
    if let Some(rule) = part {
        border.merge_with(&rule);
    }
}

fn merge_terminals(ids: &mut Vec<String>, part: &Option<TerminalAppIds>)
    ensures
        final(ids)@ == match *part {
            Some(new) => new.0@,
            None => old(ids)@,
        },
{
    if let Some(new) = part {
        *ids = clone_strings(&new.0);
    }
}

fn merge_media_players(ids: &mut Vec<String>, part: &Option<MediaPlayerAppIds>)
    ensures
        final(ids)@ == match *part {
            Some(new) => new.0@,
            None => old(ids)@,
        },
{
    if let Some(new) = part {
        *ids = clone_strings(&new.0);
    }
}

/// Whether windows have a border after a part.
pub open spec fn border_after(before: Border, part: Option<BorderRule>) -> Border {
    match part {
        Some(rule) => Border { off: (before.off || rule.off) && !rule.on },
        None => before,
    }
}

/// The layout after a part: what the part sets replaces what was there, and
/// what it leaves out stays.
pub open spec fn merged_layout(before: LayoutState, part: LayoutPart) -> LayoutState {
    LayoutState {
        focus_ring: sections_after(before.focus_ring, part.focus_ring),
        border: border_after(before.border, part.border),
        border_style: sections_after(before.border_style, part.border_style),
        shadow: sections_after(before.shadow, part.shadow),
        tab_indicator: sections_after(before.tab_indicator, part.tab_indicator),
        insert_hint: sections_after(before.insert_hint, part.insert_hint),
        preset_column_widths: presets_after(
            before.preset_column_widths,
            part.preset_column_widths,
        ),
        default_column_width: match part.default_column_width {
            Some(width) => width.0,
            None => before.default_column_width,
        },
        preset_window_heights: presets_after(
            before.preset_window_heights,
            part.preset_window_heights,
        ),
        center_focused_column: match part.center_focused_column {
            Some(center) => center,
            None => before.center_focused_column,
        },
        always_center_single_column: flag_after(
            before.always_center_single_column,
            part.always_center_single_column,
        ),
        disable_carousel: flag_after(before.disable_carousel, part.disable_carousel),
        auto_fit_or_center: flag_after(before.auto_fit_or_center, part.auto_fit_or_center),
        empty_workspace_above_first: flag_after(
            before.empty_workspace_above_first,
            part.empty_workspace_above_first,
        ),
        default_column_display: match part.default_column_display {
            Some(display) => display,
            None => before.default_column_display,
        },
        gaps: match part.gaps {
            Some(gaps) => gaps.0,
            None => before.gaps,
        },
        struts: match part.struts {
            Some(struts) => struts,
            None => before.struts,
        },
        background_color: match part.background_color {
            Some(color) => Some(color),
            None => before.background_color,
        },
        terminal_app_ids: match part.terminal_app_ids {
            Some(ids) => ids.0@,
            None => before.terminal_app_ids,
        },
        ultrawide_default_column_width: width_after(
            before.ultrawide_default_column_width,
            part.ultrawide_default_column_width,
        ),
        ultrawide_terminal_column_width: width_after(
            before.ultrawide_terminal_column_width,
            part.ultrawide_terminal_column_width,
        ),
        media_player_app_ids: match part.media_player_app_ids {
            Some(ids) => ids.0@,
            None => before.media_player_app_ids,
        },
        media_player_column_width: width_after(
            before.media_player_column_width,
            part.media_player_column_width,
        ),
        media_player_ultrawide_column_width: width_after(
            before.media_player_ultrawide_column_width,
            part.media_player_ultrawide_column_width,
        ),
        media_player_open_in_fixed_side: match part.media_player_open_in_fixed_side {
            Some(side) => side.0,
            None => before.media_player_open_in_fixed_side,
        },
    }
}

impl MergeWith<LayoutPart> for Layout {
    open spec fn merges_to(&self, part: &LayoutPart, after: &Self) -> bool {
        after@ == merged_layout(self@, *part)
    }

    fn merge_with(&mut self, part: &LayoutPart) {
        merge_section(&mut self.focus_ring, part.focus_ring);
        merge_border(&mut self.border, part.border);
        merge_section(&mut self.border_style, part.border_style);
        merge_section(&mut self.shadow, part.shadow);
        merge_section(&mut self.tab_indicator, part.tab_indicator);
        merge_section(&mut self.insert_hint, part.insert_hint);
        if part.background_color.is_some() {
            self.background_color = part.background_color;
        }
        self.always_center_single_column = merged_flag(
            self.always_center_single_column,
            part.always_center_single_column,
        );
        self.disable_carousel = merged_flag(self.disable_carousel, part.disable_carousel);
        self.auto_fit_or_center = merged_flag(self.auto_fit_or_center, part.auto_fit_or_center);
        self.empty_workspace_above_first = merged_flag(
            self.empty_workspace_above_first,
            part.empty_workspace_above_first,
        );
        merge_presets(&mut self.preset_column_widths, &part.preset_column_widths);
        merge_presets(&mut self.preset_window_heights, &part.preset_window_heights);
        self.center_focused_column = part.center_focused_column.unwrap_or(
            self.center_focused_column,
        );
        self.default_column_display = part.default_column_display.unwrap_or(
            self.default_column_display,
        );
        self.gaps = part.gaps.unwrap_or(FloatOrInt(self.gaps)).0;
        self.struts = part.struts.unwrap_or(self.struts);
        self.default_column_width = part.default_column_width.unwrap_or(
            DefaultPresetSize(self.default_column_width),
        ).0;
        merge_terminals(&mut self.terminal_app_ids, &part.terminal_app_ids);
        self.ultrawide_default_column_width = merged_width(
            self.ultrawide_default_column_width,
            part.ultrawide_default_column_width,
        );
        self.ultrawide_terminal_column_width = merged_width(
            self.ultrawide_terminal_column_width,
            part.ultrawide_terminal_column_width,
        );
        merge_media_players(&mut self.media_player_app_ids, &part.media_player_app_ids);
        self.media_player_column_width = merged_width(
            self.media_player_column_width,
            part.media_player_column_width,
        );
        self.media_player_ultrawide_column_width = merged_width(
            self.media_player_ultrawide_column_width,
            part.media_player_ultrawide_column_width,
        );
        self.media_player_open_in_fixed_side = part.media_player_open_in_fixed_side.unwrap_or(
            MediaPlayerFixedSide(self.media_player_open_in_fixed_side),
        ).to_option();
    }
}

/// There is always a size to choose from, whatever a part says.
pub proof fn presets_are_never_empty(before: LayoutState, part: LayoutPart)
    ensures
        merged_layout(before, part).preset_column_widths.len() > 0,
        merged_layout(before, part).preset_window_heights.len() > 0,
{
}

/// Merging the same part again changes nothing.
pub proof fn layout_merge_is_idempotent(before: LayoutState, part: LayoutPart)
    ensures
        merged_layout(merged_layout(before, part), part) == merged_layout(before, part),
{
}

/// A part that sets nothing changes nothing but empty lists of sizes.
pub proof fn empty_layout_part_keeps_everything(before: LayoutState, part: LayoutPart)
    requires
        is_empty_part(part),
        before.preset_column_widths.len() > 0,
        before.preset_window_heights.len() > 0,
    ensures
        merged_layout(before, part) == before,
{
}

/// Each setting that a part gives is in effect after the merge.
pub proof fn given_settings_are_in_effect(before: LayoutState, part: LayoutPart)
    ensures
        ({
            let after = merged_layout(before, part);
            &&& part.center_focused_column matches Some(given)
                ==> after.center_focused_column == given
            &&& part.default_column_display matches Some(given)
                ==> after.default_column_display == given
            &&& part.struts matches Some(given) ==> after.struts == given
            &&& part.always_center_single_column matches Some(given)
                ==> after.always_center_single_column
                == given.0
            &&& part.disable_carousel matches Some(given) ==> after.disable_carousel
                == given.0
            &&& part.auto_fit_or_center matches Some(given) ==> after.auto_fit_or_center
                == given.0
            &&& part.empty_workspace_above_first matches Some(given)
                ==> after.empty_workspace_above_first
                == given.0
            &&& part.gaps matches Some(given) ==> after.gaps == given.0
            &&& part.background_color matches Some(given) ==> after.background_color == Some(given)
            &&& part.default_column_width matches Some(given) ==> after.default_column_width
                == given.0
            &&& part.media_player_open_in_fixed_side matches Some(given)
                ==> after.media_player_open_in_fixed_side == given.0
            &&& part.ultrawide_default_column_width matches Some(DefaultPresetSize(Some(given)))
                ==> after.ultrawide_default_column_width == given
            &&& part.ultrawide_terminal_column_width matches Some(DefaultPresetSize(Some(given)))
                ==> after.ultrawide_terminal_column_width == given
            &&& part.media_player_column_width matches Some(DefaultPresetSize(Some(given)))
                ==> after.media_player_column_width == given
            &&& part.media_player_ultrawide_column_width matches Some(
                DefaultPresetSize(Some(given)),
            )
                ==> after.media_player_ultrawide_column_width == given
            &&& part.terminal_app_ids matches Some(given) ==> after.terminal_app_ids == given.0@
            &&& part.media_player_app_ids matches Some(given)
                ==> after.media_player_app_ids == given.0@
            &&& part.preset_column_widths matches Some(given) ==> given@.len() > 0
                ==> after.preset_column_widths == given@
            &&& part.preset_window_heights matches Some(given) ==> given@.len() > 0
                ==> after.preset_window_heights == given@
            &&& part.focus_ring matches Some(given) ==> after.focus_ring.len() > 0
                && after.focus_ring.last() == given
            &&& part.border_style matches Some(given) ==> after.border_style.len() > 0
                && after.border_style.last() == given
            &&& part.shadow matches Some(given) ==> after.shadow.len() > 0
                && after.shadow.last() == given
            &&& part.tab_indicator matches Some(given) ==> after.tab_indicator.len() > 0
                && after.tab_indicator.last() == given
            &&& part.insert_hint matches Some(given) ==> after.insert_hint.len() > 0
                && after.insert_hint.last() == given
        }),
{
}

/// Each setting that a part leaves out stays as it was, and a default width that isn't a
/// width leaves the width for some applications or screens as it was.
pub proof fn other_settings_stay(before: LayoutState, part: LayoutPart)
    ensures
        ({
            let after = merged_layout(before, part);
            &&& part.center_focused_column is None ==> after.center_focused_column
                == before.center_focused_column
            &&& part.default_column_display is None ==> after.default_column_display
                == before.default_column_display
            &&& part.struts is None ==> after.struts == before.struts
            &&& part.always_center_single_column is None ==> after.always_center_single_column
                == before.always_center_single_column
            &&& part.disable_carousel is None ==> after.disable_carousel == before.disable_carousel
            &&& part.auto_fit_or_center is None ==> after.auto_fit_or_center
                == before.auto_fit_or_center
            &&& part.empty_workspace_above_first is None ==> after.empty_workspace_above_first
                == before.empty_workspace_above_first
            &&& part.gaps is None ==> after.gaps == before.gaps
            &&& part.background_color is None ==> after.background_color == before.background_color
            &&& part.default_column_width is None ==> after.default_column_width
                == before.default_column_width
            &&& part.media_player_open_in_fixed_side is None
                ==> after.media_player_open_in_fixed_side
                == before.media_player_open_in_fixed_side
            &&& part.terminal_app_ids is None ==> after.terminal_app_ids == before.terminal_app_ids
            &&& part.media_player_app_ids is None ==> after.media_player_app_ids
                == before.media_player_app_ids
            &&& part.focus_ring is None ==> after.focus_ring == before.focus_ring
            &&& part.border_style is None ==> after.border_style == before.border_style
            &&& part.shadow is None ==> after.shadow == before.shadow
            &&& part.tab_indicator is None ==> after.tab_indicator == before.tab_indicator
            &&& part.insert_hint is None ==> after.insert_hint == before.insert_hint
            &&& part.border is None ==> after.border == before.border
            &&& part.ultrawide_default_column_width is None || (
                part.ultrawide_default_column_width->0
            ).0 is None
                ==> after.ultrawide_default_column_width == before.ultrawide_default_column_width
            &&& part.ultrawide_terminal_column_width is None || (
                part.ultrawide_terminal_column_width->0
            ).0 is None
                ==> after.ultrawide_terminal_column_width == before.ultrawide_terminal_column_width
            &&& part.media_player_column_width is None || (
                part.media_player_column_width->0
            ).0 is None
                ==> after.media_player_column_width == before.media_player_column_width
            &&& part.media_player_ultrawide_column_width is None || (
                part.media_player_ultrawide_column_width->0
            ).0 is None
                ==> after.media_player_ultrawide_column_width
                == before.media_player_ultrawide_column_width
            &&& part.preset_column_widths is None && before.preset_column_widths.len() > 0
                ==> after.preset_column_widths == before.preset_column_widths
            &&& part.preset_window_heights is None && before.preset_window_heights.len() > 0
                ==> after.preset_window_heights == before.preset_window_heights
        }),
{
}

/// A border section turns borders on or off as it says, and one that says neither leaves
/// them as they are. One that says both turns them on.
pub proof fn borders_are_as_the_part_says(before: LayoutState, part: LayoutPart)
    requires
        part.border is Some,
    ensures
        part.border->0.on ==> !merged_layout(before, part).border.off,
        part.border->0.off && !part.border->0.on ==> merged_layout(before, part).border.off,
        !part.border->0.off && !part.border->0.on ==> merged_layout(before, part).border
            == before.border,
{
}

/// The sections on an appearance that were merged before stay, in their order.
pub proof fn merged_sections_stay(before: LayoutState, part: LayoutPart)
    ensures
        ({
            let after = merged_layout(before, part);
            &&& before.focus_ring.is_prefix_of(after.focus_ring)
            &&& after.focus_ring.len() <= before.focus_ring.len() + 1
            &&& before.border_style.is_prefix_of(after.border_style)
            &&& after.border_style.len() <= before.border_style.len() + 1
            &&& before.shadow.is_prefix_of(after.shadow)
            &&& after.shadow.len() <= before.shadow.len() + 1
            &&& before.tab_indicator.is_prefix_of(after.tab_indicator)
            &&& after.tab_indicator.len() <= before.tab_indicator.len() + 1
            &&& before.insert_hint.is_prefix_of(after.insert_hint)
            &&& after.insert_hint.len() <= before.insert_hint.len() + 1
        }),
{
}

/// A list of sizes that is given empty is the one that is used without a configuration.
pub proof fn empty_lists_of_sizes_are_the_default(before: LayoutState, part: LayoutPart)
    ensures
        ({
            let after = merged_layout(before, part);
            &&& part.preset_column_widths matches Some(given) ==> given@.len() == 0
                ==> after.preset_column_widths == default_layout().preset_column_widths
            &&& part.preset_window_heights matches Some(given) ==> given@.len() == 0
                ==> after.preset_window_heights == default_layout().preset_window_heights
        }),
{
}

/// A side is the one that is named, and it is turned off by name only.
pub proof fn sides_go_by_their_names(s: Seq<char>)
    ensures
        media_player_side(s) == Some(Some(OpenInFixedSide::Left)) ==> s == "left"@,
        media_player_side(s) == Some(Some(OpenInFixedSide::Right)) ==> s == "right"@,
        media_player_side(s) == Some(None::<OpenInFixedSide>) ==> s == "none"@ || s == "off"@,
        media_player_side(s) is Some <==> s == "left"@ || s == "right"@ || s == "none"@ || s
            == "off"@,
{
}

/// A default size is the one that is given, and is left to the window where none is.
pub proof fn default_sizes_are_as_given(child: Option<Result<PresetSize, DecodeError>>)
    ensures
        default_size_of(child) is Err <==> child is Some && child->0 is Err,
        default_size_of(child) matches Ok(DefaultPresetSize(size)) ==> {
            &&& child is None <==> size is None
            &&& child is Some ==> size == Some(child->0->Ok_0)
        },
        default_size_of(child) matches Err(e) ==> e == child->0->Err_0,
{
}

/// Parts that set the same have the same effect, whatever they are merged into.
pub proof fn same_parts_have_the_same_effect(before: LayoutState, a: LayoutPart, b: LayoutPart)
    requires
        same_part(a, b),
    ensures
        ({
            let one = merged_layout(before, a);
            let other = merged_layout(before, b);
            &&& views(one.terminal_app_ids) == views(other.terminal_app_ids)
            &&& views(one.media_player_app_ids) == views(other.media_player_app_ids)
            &&& one == (LayoutState {
                terminal_app_ids: one.terminal_app_ids,
                media_player_app_ids: one.media_player_app_ids,
                ..other
            })
        }),
{
}

/// Setting the same is mutual and is passed on, and every part sets the same as itself. A part
/// that is there never sets the same as one that isn't.
pub proof fn setting_the_same_is_mutual(
    a: Option<LayoutPart>,
    b: Option<LayoutPart>,
    c: Option<LayoutPart>,
)
    ensures
        same_parts(a, a),
        same_parts(a, b) ==> same_parts(b, a),
        same_parts(a, b) && same_parts(b, c) ==> same_parts(a, c),
        same_parts(a, b) ==> (a is Some <==> b is Some),
{
}

} // verus!
