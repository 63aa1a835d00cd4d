//! Sizes that windows open with.

use vstd::prelude::*;
use crate::config::layout::{Layout, LayoutState, PresetSize};
use crate::ipc::SizeChange;
use crate::layout::geometry::SizeBits;
use crate::text::{contains_str, views};

verus! {

/// Flips a relative change into its opposite. An absolute one has none and
/// stays as it is.
pub open spec fn negated(change: SizeChange) -> SizeChange {
    match change {
        SizeChange::AdjustFixed(n) => SizeChange::AdjustFixed((-n) as i32),
        SizeChange::AdjustProportion(bits) => SizeChange::AdjustProportion(
            bits ^ 0x8000_0000_0000_0000u64,
        ),
        _ => change,
    }
}

/// Flips a relative change into its opposite: the sign of a proportion is the
/// top bit of its pattern.
pub fn negate_size_change(change: SizeChange) -> (r: SizeChange)
    requires
        change matches SizeChange::AdjustFixed(n) ==> n > i32::MIN,
    ensures
        r == negated(change),
{
    match change {
        SizeChange::AdjustFixed(n) => SizeChange::AdjustFixed(-n),
        SizeChange::AdjustProportion(bits) => SizeChange::AdjustProportion(
            bits ^ 0x8000_0000_0000_0000u64,
        ),
        SizeChange::SetFixed(n) => SizeChange::SetFixed(n),
        SizeChange::SetProportion(bits) => SizeChange::SetProportion(bits),
    }
}

/// Flipping a change twice gives it back.
pub proof fn negating_twice_gives_the_change(change: SizeChange)
    requires
        change matches SizeChange::AdjustFixed(n) ==> n > i32::MIN,
    ensures
        negated(negated(change)) == change,
{
    if let SizeChange::AdjustProportion(bits) = change {
        assert((bits ^ 0x8000_0000_0000_0000u64) ^ 0x8000_0000_0000_0000u64 == bits)
            by (bit_vector);
    }
}

/// Whether an application is one of those listed.
pub open spec fn is_listed(app_id: Option<Seq<char>>, ids: Seq<String>) -> bool {
    match app_id {
        Some(id) => views(ids).contains(id),
        None => false,
    }
}

/// The view of an optional string slice.
pub open spec fn str_view(s: Option<&str>) -> Option<Seq<char>> {
    match s {
        Some(s) => Some(s@),
        None => None,
    }
}

fn listed(app_id: Option<&str>, ids: &Vec<String>) -> (r: bool)
    ensures
        r == is_listed(str_view(app_id), ids@),
{
    match app_id {
        Some(id) => contains_str(ids, id),
        None => false,
    }
}

/// The width that a window opens with on an ultrawide output where no default
/// is configured: one for terminals and one for others. On other outputs there
/// is none.
pub fn ultrawide_default_column_width(
    ultrawide: bool,
    app_id: Option<&str>,
    terminal_app_ids: &Vec<String>,
    default_for_others: PresetSize,
    default_for_terminals: PresetSize,
) -> (r: Option<PresetSize>)
    ensures
        r == (if !ultrawide {
            None
        } else if is_listed(str_view(app_id), terminal_app_ids@) {
            Some(default_for_terminals)
        } else {
            Some(default_for_others)
        }),
{
    if !ultrawide {
        return None;
    }
    if listed(app_id, terminal_app_ids) {
        Some(default_for_terminals)
    } else {
        Some(default_for_others)
    }
}

/// The width that a media player opens with; none for other windows.
pub fn media_player_default_column_width(
    ultrawide: bool,
    app_id: Option<&str>,
    media_player_app_ids: &Vec<String>,
    normal: PresetSize,
    wide: PresetSize,
) -> (r: Option<PresetSize>)
    ensures
        r == (if !is_listed(str_view(app_id), media_player_app_ids@) {
            None
        } else if ultrawide {
            Some(wide)
        } else {
            Some(normal)
        }),
{
    if !listed(app_id, media_player_app_ids) {
        return None;
    }
    if ultrawide {
        Some(wide)
    } else {
        Some(normal)
    }
}

/// The width that a window opens with; `None` leaves it to the window.
///
/// A rule goes first. Without one a floating window decides for itself, a media
/// player has a width of its own, and other windows have the configured
/// default, or else on ultrawide outputs the one for those.
pub open spec fn default_width(
    layout: LayoutState,
    rule: Option<Option<PresetSize>>,
    floating: bool,
    app_id: Option<Seq<char>>,
    ultrawide: bool,
) -> Option<PresetSize> {
    match rule {
        Some(width) => width,
        None => if floating {
            None
        } else if is_listed(app_id, layout.media_player_app_ids) {
            Some(
                if ultrawide {
                    layout.media_player_ultrawide_column_width
                } else {
                    layout.media_player_column_width
                },
            )
        } else if layout.default_column_width is Some {
            layout.default_column_width
        } else if !ultrawide {
            None
        } else if is_listed(app_id, layout.terminal_app_ids) {
            Some(layout.ultrawide_terminal_column_width)
        } else {
            Some(layout.ultrawide_default_column_width)
        },
    }
}

/// Resolves the width that a window opens with.
pub fn resolve_default_width(
    layout: &Layout,
    default_width: Option<Option<PresetSize>>,
    is_floating: bool,
    app_id: Option<&str>,
    ultrawide: bool,
) -> (r: Option<PresetSize>)
    ensures
        r == self::default_width(layout@, default_width, is_floating, str_view(app_id), ultrawide),
{
    if let Some(width) = default_width {
        return width;
    }
    if is_floating {
        return None;
    }
    let media = media_player_default_column_width(
        ultrawide,
        app_id,
        &layout.media_player_app_ids,
        layout.media_player_column_width,
        layout.media_player_ultrawide_column_width,
    );
    if media.is_some() {
        return media;
    }
    if layout.default_column_width.is_some() {
        return layout.default_column_width;
    }
    ultrawide_default_column_width(
        ultrawide,
        app_id,
        &layout.terminal_app_ids,
        layout.ultrawide_default_column_width,
        layout.ultrawide_terminal_column_width,
    )
}

/// The height that a window opens with, floating or not.
pub open spec fn height_by_rule(
    rule: Option<Option<PresetSize>>,
    floating: bool,
) -> Option<PresetSize> {
    match rule {
        Some(height) => height,
        None => None,
    }
}

/// The height that a window opens with: only a rule can set one.
pub fn resolve_default_height(
    default_height: Option<Option<PresetSize>>,
    is_floating: bool,
) -> (r: Option<PresetSize>)
    ensures
        r == height_by_rule(default_height, is_floating),
{
    match default_height {
        Some(height) => height,
        None => None,
    }
}

/// A size in whole logical pixels; zero leaves a dimension to the window.
#[derive(Debug, Clone, Copy, PartialEq, Eq, Structural)]
pub struct Size {
    pub w: i32,
    pub h: i32,
}

/// A length moved between its bounds. A bound that isn't positive is none, and
/// the lower one wins.
pub open spec fn bounded(x: i32, min: i32, max: i32) -> i32 {
    let below = if max > 0 && x > max {
        max
    } else {
        x
    };
    if min > 0 && below < min {
        min
    } else {
        below
    }
}

/// A length moved between its bounds, where zero stays unless there is only one
/// length that fits.
pub open spec fn bounded_or_free(x: i32, min: i32, max: i32) -> i32 {
    if x != 0 {
        bounded(x, min, max)
    } else if min > 0 && min == max {
        min
    } else {
        0
    }
}

pub fn ensure_min_max_size(x: i32, min_size: i32, max_size: i32) -> (r: i32)
    ensures
        r == bounded(x, min_size, max_size),
{
    let mut r: i32 = x;
    if max_size > 0 && r > max_size {
        r = max_size;
    }
    if min_size > 0 && r < min_size {
        r = min_size;
    }
    r
}

pub fn ensure_min_max_size_maybe_zero(x: i32, min_size: i32, max_size: i32) -> (r: i32)
    ensures
        r == bounded_or_free(x, min_size, max_size),
{
    if x != 0 {
        ensure_min_max_size(x, min_size, max_size)
    } else if min_size > 0 && min_size == max_size {
        min_size
    } else {
        0
    }
}

/// The size that a window is asked to open with, from the one that its layer
/// has for it and from its bounds.
///
/// A width that is left to the window stays so unless the window has a fixed
/// one. Of the bounds of a height only a fixed height and the lower bound count.
pub fn new_window_size(proposed: Size, min_size: Size, max_size: Size) -> (r: Size)
    ensures
        r == opening_size(proposed, min_size, max_size),
{
    let w: i32 = ensure_min_max_size_maybe_zero(proposed.w, min_size.w, max_size.w);
    let h: i32 = if min_size.h == max_size.h {
        ensure_min_max_size(proposed.h, min_size.h, max_size.h)
    } else if proposed.h > 0 && min_size.h > proposed.h {
        min_size.h
    } else {
        proposed.h
    };
    Size { w, h }
}

/// The size that a window is asked to open with.
pub open spec fn opening_size(proposed: Size, min_size: Size, max_size: Size) -> Size {
    Size {
        w: bounded_or_free(proposed.w, min_size.w, max_size.w),
        h: if min_size.h == max_size.h {
            bounded(proposed.h, min_size.h, max_size.h)
        } else if proposed.h > 0 && min_size.h > proposed.h {
            min_size.h
        } else {
            proposed.h
        },
    }
}

/// The size in the first configure of a window.
#[derive(Debug, Clone, Copy, PartialEq, Eq, Structural)]
pub enum ConfiguredSize {
    /// This size, rounded to whole pixels.
    Rounded(SizeBits),
    /// This size.
    Exact(Size),
}

/// The width of a column for a new window.
#[derive(Debug, Clone, Copy, PartialEq, Eq, Structural)]
pub enum ScrollingWidth {
    /// A part of the view, as the bit pattern of a double.
    Proportion(u64),
    /// This width, and that of a border on both sides where there is one.
    Content { width: i32, with_border: bool },
}

/// The width of a column for a new window: the preset one, or else the one that
/// the window has.
pub open spec fn scrolling_width(
    window_width: i32,
    width: Option<PresetSize>,
    border_off: bool,
) -> ScrollingWidth {
    match width {
        Some(PresetSize::Proportion(bits)) => ScrollingWidth::Proportion(bits),
        Some(PresetSize::Fixed(fixed)) => ScrollingWidth::Content {
            width: fixed,
            with_border: !border_off,
        },
        None => ScrollingWidth::Content { width: window_width, with_border: !border_off },
    }
}

pub fn resolve_scrolling_width(
    window_width: i32,
    width: Option<PresetSize>,
    border_off: bool,
) -> (r: ScrollingWidth)
    ensures
        r == scrolling_width(window_width, width, border_off),
{
    match width {
        Some(PresetSize::Proportion(bits)) => ScrollingWidth::Proportion(bits),
        Some(PresetSize::Fixed(fixed)) => ScrollingWidth::Content {
            width: fixed,
            with_border: !border_off,
        },
        None => ScrollingWidth::Content { width: window_width, with_border: !border_off },
    }
}

/// A change and its opposite cancel out: fixed steps add up to nothing, and proportions differ
/// in their sign alone. What isn't relative has no opposite.
pub proof fn opposites_cancel_out(change: SizeChange)
    requires
        change matches SizeChange::AdjustFixed(n) ==> n > i32::MIN,
    ensures
        change matches SizeChange::AdjustFixed(n) ==> {
            &&& negated(change) is AdjustFixed
            &&& n + negated(change)->AdjustFixed_0 == 0
        },
        change matches SizeChange::AdjustProportion(bits) ==> {
            &&& negated(change) is AdjustProportion
            &&& negated(change)->AdjustProportion_0 & 0x7FFF_FFFF_FFFF_FFFF == bits
                & 0x7FFF_FFFF_FFFF_FFFF
            &&& negated(change)->AdjustProportion_0 != bits
        },
        change is SetFixed || change is SetProportion ==> negated(change) == change,
{
    if let SizeChange::AdjustProportion(bits) = change {
        assert((bits ^ 0x8000_0000_0000_0000u64) & 0x7FFF_FFFF_FFFF_FFFFu64 == bits
            & 0x7FFF_FFFF_FFFF_FFFFu64) by (bit_vector);
        assert((bits ^ 0x8000_0000_0000_0000u64) != bits) by (bit_vector);
    }
}

/// A rule decides the width alone.
pub proof fn rules_decide_the_width(
    a: LayoutState,
    b: LayoutState,
    width: Option<PresetSize>,
    floating: bool,
    app_id: Option<Seq<char>>,
    ultrawide: bool,
)
    ensures
        default_width(a, Some(width), floating, app_id, ultrawide) == width,
        default_width(a, Some(width), floating, app_id, ultrawide) == default_width(
            b,
            Some(width),
            !floating,
            None,
            !ultrawide,
        ),
{
}

/// Without a rule a floating window has no width, a media player has its own whatever the
/// default is, and any other window has the default, where there is one.
pub proof fn widths_without_a_rule(
    layout: LayoutState,
    floating: bool,
    app_id: Option<Seq<char>>,
    ultrawide: bool,
)
    ensures
        ({
            let width = default_width(layout, None, floating, app_id, ultrawide);
            let player = app_id is Some && views(layout.media_player_app_ids).contains(app_id->0);
            let terminal = app_id is Some && views(layout.terminal_app_ids).contains(app_id->0);
            &&& floating ==> width is None
            &&& !floating && player && ultrawide ==> width == Some(
                layout.media_player_ultrawide_column_width,
            )
            &&& !floating && player && !ultrawide ==> width == Some(
                layout.media_player_column_width,
            )
            &&& !floating && !player && layout.default_column_width is Some ==> width
                == layout.default_column_width
            &&& !floating && !player && layout.default_column_width is None && !ultrawide
                ==> width is None
            &&& !floating && !player && layout.default_column_width is None && ultrawide
                && terminal ==> width == Some(layout.ultrawide_terminal_column_width)
            &&& !floating && !player && layout.default_column_width is None && ultrawide
                && !terminal ==> width == Some(layout.ultrawide_default_column_width)
        }),
{
}

/// A length moved between its bounds is between them, is the nearest one there, and is the
/// length itself where that fits.
pub proof fn bounded_lengths_fit(x: i32, min: i32, max: i32)
    ensures
        min > 0 ==> bounded(x, min, max) >= min,
        max > 0 && min <= max ==> bounded(x, min, max) <= max,
        (min <= 0 || x >= min) && (max <= 0 || x <= max) ==> bounded(x, min, max) == x,
        max > 0 && min <= max && x > max ==> bounded(x, min, max) == max,
        min > 0 && x < min ==> bounded(x, min, max) == min,
        min > 0 && max > 0 && min > max ==> bounded(x, min, max) >= min,
{
}

/// The size that a window is asked to open with respects what the window can be. A width that
/// is left to it stays so unless it has one only, and a height is never cut down unless it is
/// the only one.
pub proof fn opening_sizes_fit(proposed: Size, min_size: Size, max_size: Size)
    ensures
        ({
            let size = opening_size(proposed, min_size, max_size);
            &&& proposed.w == 0 && !(min_size.w > 0 && min_size.w == max_size.w) ==> size.w == 0
            &&& min_size.w > 0 && min_size.w == max_size.w ==> size.w == min_size.w
            &&& proposed.w != 0 && min_size.w > 0 ==> size.w >= min_size.w
            &&& proposed.w != 0 && max_size.w > 0 && min_size.w <= max_size.w ==> size.w
                <= max_size.w
            &&& proposed.w != 0 && (min_size.w <= 0 || proposed.w >= min_size.w) && (max_size.w
                <= 0 || proposed.w <= max_size.w) ==> size.w == proposed.w
            &&& min_size.h > 0 && min_size.h == max_size.h ==> size.h == min_size.h
            &&& min_size.h != max_size.h && proposed.h <= 0 ==> size.h == proposed.h
            &&& min_size.h != max_size.h && proposed.h >= min_size.h ==> size.h == proposed.h
            &&& min_size.h != max_size.h && 0 < proposed.h < min_size.h ==> size.h == min_size.h
        }),
{
}

/// A column is as wide as is asked for, or else as its window. A border counts where a width
/// is in pixels and there are borders.
pub proof fn columns_are_as_wide_as_asked_for(
    window_width: i32,
    width: Option<PresetSize>,
    border_off: bool,
)
    ensures
        ({
            let r = scrolling_width(window_width, width, border_off);
            &&& r is Proportion <==> width is Some && width->0 is Proportion
            &&& width matches Some(PresetSize::Proportion(bits)) ==> r->Proportion_0 == bits
            &&& width matches Some(PresetSize::Fixed(fixed)) ==> r->width == fixed
            &&& width is None ==> r->width == window_width
            &&& r is Content ==> r->with_border == !border_off
        }),
{
}

/// The height of a new window is the one that a rule gives it, whether it floats or not.
pub proof fn rules_decide_the_height(height: Option<PresetSize>, floating: bool)
    ensures
        height_by_rule(Some(height), floating) == height,
        height_by_rule(None, floating) is None,
        height_by_rule(Some(height), floating) == height_by_rule(Some(height), !floating),
{
}

} // verus!
