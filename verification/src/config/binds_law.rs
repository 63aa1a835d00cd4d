//! What the name and the properties of a key bind mean.

use vstd::prelude::*;
use crate::config::binds::{
    bind_of, bound_keysym, key_of, looked_up_name, modifier_of, modifiers_of, named_trigger,
    properties_of, switch_command, BindInput, KeyFault, KeysymLookup, SwitchBinds, Trigger, ALT,
    COMPOSITOR, CTRL, ISO_LEVEL3_SHIFT, ISO_LEVEL5_SHIFT, NO_SYMBOL, SHIFT, SUPER, XF86_SCREENSAVER,
    XF86_SCREEN_SAVER,
};
use crate::config::node::{bool_of, option_string_of, u64_of, Node, Value};
use crate::config::utils::{Literal, MergeWith};
use crate::text::{ascii_fold, pieces, same_ignoring_ascii_case, trimmed};

verus! {

/// Each modifier goes by its own names and by no other.
pub proof fn modifiers_go_by_their_names(part: Seq<char>)
    ensures
        modifier_of(part) == Some(COMPOSITOR) ==> same_ignoring_ascii_case(part, "mod"@),
        modifier_of(part) == Some(CTRL)
            ==> same_ignoring_ascii_case(part, "ctrl"@) || same_ignoring_ascii_case(
            part,
            "control"@,
        ),
        modifier_of(part) == Some(SHIFT) ==> same_ignoring_ascii_case(part, "shift"@),
        modifier_of(part) == Some(ALT) ==> same_ignoring_ascii_case(part, "alt"@),
        modifier_of(part) == Some(SUPER)
            ==> same_ignoring_ascii_case(part, "super"@) || same_ignoring_ascii_case(
            part,
            "win"@,
        ),
        modifier_of(part) == Some(ISO_LEVEL3_SHIFT)
            ==> same_ignoring_ascii_case(part, "iso_level3_shift"@) || same_ignoring_ascii_case(
            part,
            "mod5"@,
        ),
        modifier_of(part) == Some(ISO_LEVEL5_SHIFT)
            ==> same_ignoring_ascii_case(part, "iso_level5_shift"@) || same_ignoring_ascii_case(
            part,
            "mod3"@,
        ),
        modifier_of(part) is Some <==> {
            ||| same_ignoring_ascii_case(part, "mod"@)
            ||| same_ignoring_ascii_case(part, "ctrl"@)
            ||| same_ignoring_ascii_case(part, "control"@)
            ||| same_ignoring_ascii_case(part, "shift"@)
            ||| same_ignoring_ascii_case(part, "alt"@)
            ||| same_ignoring_ascii_case(part, "super"@)
            ||| same_ignoring_ascii_case(part, "win"@)
            ||| same_ignoring_ascii_case(part, "iso_level3_shift"@)
            ||| same_ignoring_ascii_case(part, "mod5"@)
            ||| same_ignoring_ascii_case(part, "iso_level5_shift"@)
            ||| same_ignoring_ascii_case(part, "mod3"@)
        },
{
}

/// The name of a modifier may be written in capitals or not.
pub proof fn case_of_modifiers_does_not_matter(a: Seq<char>, b: Seq<char>)
    requires
        same_ignoring_ascii_case(a, b),
    ensures
        modifier_of(a) == modifier_of(b),
{
    assert forall|name: Seq<char>| same_ignoring_ascii_case(a, name)
        == #[trigger] same_ignoring_ascii_case(b, name) by {
        if same_ignoring_ascii_case(a, name) {
            assert forall|i: int| 0 <= i < b.len() implies ascii_fold(#[trigger] b[i])
                == ascii_fold(name[i]) by {
                assert(ascii_fold(a[i]) == ascii_fold(b[i]));
            }
        }
        if same_ignoring_ascii_case(b, name) {
            assert forall|i: int| 0 <= i < a.len() implies ascii_fold(#[trigger] a[i])
                == ascii_fold(name[i]) by {
                assert(ascii_fold(b[i]) == ascii_fold(name[i]));
            }
        }
    }
}

/// Whether a number stands for one modifier.
pub open spec fn is_modifier(m: u8) -> bool {
    ||| m == COMPOSITOR
    ||| m == CTRL
    ||| m == SHIFT
    ||| m == ALT
    ||| m == SUPER
    ||| m == ISO_LEVEL3_SHIFT
    ||| m == ISO_LEVEL5_SHIFT
}

/// A modifier is held if and only if one of the parts in front of the key names it, in
/// whatever order and however often they do.
pub proof fn named_modifiers_are_held(parts: Seq<Seq<char>>, n: int, m: u8)
    requires
        is_modifier(m),
        0 <= n <= parts.len(),
        modifiers_of(parts, n) is Ok,
    ensures
        modifiers_of(parts, n)->Ok_0 & m != 0 <==> exists|i: int|
            0 <= i < n && modifier_of(trimmed(#[trigger] parts[i])) == Some(m),
    decreases n,
{
    if n <= 0 {
        assert(0u8 & m == 0) by (bit_vector);
    } else {
        named_modifiers_are_held(parts, n - 1, m);
        let held = modifiers_of(parts, n - 1)->Ok_0;
        let x = modifier_of(trimmed(parts[n - 1]))->0;
        assert(is_modifier(x));
        assert(((held | x) & m != 0) == ((held & m) != 0 || (x & m) != 0)) by (bit_vector);
        assert(x & m != 0 <==> x == m) by (bit_vector)
            requires
                x == 64 || x == 1 || x == 2 || x == 4 || x == 8 || x == 16 || x == 32,
                m == 64 || m == 1 || m == 2 || m == 4 || m == 8 || m == 16 || m == 32,
        ;
        if exists|i: int|
            0 <= i < n && modifier_of(trimmed(#[trigger] parts[i])) == Some(m) {
            let i = choose|i: int|
                0 <= i < n && modifier_of(trimmed(#[trigger] parts[i])) == Some(m);
            if i == n - 1 {
                assert(x == m);
            }
        }
        if x == m {
            assert(modifier_of(trimmed(parts[n - 1])) == Some(m));
        }
    }
}

/// A wrong part in front of a key is reported as it is, and it is the first wrong one.
pub proof fn first_wrong_modifier_is_reported(parts: Seq<Seq<char>>, n: int)
    requires
        0 <= n <= parts.len(),
    ensures
        modifiers_of(parts, n) is Ok <==> forall|i: int|
            0 <= i < n ==> modifier_of(trimmed(#[trigger] parts[i])) is Some,
        modifiers_of(parts, n) is Err ==> exists|i: int| {
            &&& 0 <= i < n
            &&& trimmed(#[trigger] parts[i]) == modifiers_of(parts, n)->Err_0
            &&& modifier_of(trimmed(parts[i])) is None
            &&& forall|j: int| 0 <= j < i ==> modifier_of(trimmed(#[trigger] parts[j])) is Some
        },
    decreases n,
{
    if n > 0 {
        first_wrong_modifier_is_reported(parts, n - 1);
        if modifiers_of(parts, n - 1) is Ok {
            if modifier_of(trimmed(parts[n - 1])) is None {
                assert(trimmed(parts[n - 1]) == modifiers_of(parts, n)->Err_0);
            }
        }
    }
}

/// The name of a trigger that isn't a key.
pub open spec fn trigger_name(trigger: Trigger) -> Seq<char> {
    match trigger {
        Trigger::Keysym(_) => seq![],
        Trigger::MouseLeft => "MouseLeft"@,
        Trigger::MouseRight => "MouseRight"@,
        Trigger::MouseMiddle => "MouseMiddle"@,
        Trigger::MouseBack => "MouseBack"@,
        Trigger::MouseForward => "MouseForward"@,
        Trigger::WheelScrollDown => "WheelScrollDown"@,
        Trigger::WheelScrollUp => "WheelScrollUp"@,
        Trigger::WheelScrollLeft => "WheelScrollLeft"@,
        Trigger::WheelScrollRight => "WheelScrollRight"@,
        Trigger::TouchpadScrollDown => "TouchpadScrollDown"@,
        Trigger::TouchpadScrollUp => "TouchpadScrollUp"@,
        Trigger::TouchpadScrollLeft => "TouchpadScrollLeft"@,
        Trigger::TouchpadScrollRight => "TouchpadScrollRight"@,
    }
}

/// Each trigger that isn't a key goes by its name, in capitals or not.
pub proof fn triggers_go_by_their_names(key: Seq<char>)
    ensures
        named_trigger(key) matches Some(trigger) ==> same_ignoring_ascii_case(
            key,
            trigger_name(trigger),
        ) && !(trigger is Keysym),
{
}

/// Each trigger that isn't a key can be named.
pub proof fn every_trigger_has_a_name(trigger: Trigger)
    requires
        !(trigger is Keysym),
    ensures
        named_trigger(trigger_name(trigger)) is Some,
{
    let name = trigger_name(trigger);
    assert(same_ignoring_ascii_case(name, name));
}

/// What a key is: the modifiers in front of it, and the trigger behind them. A name that
/// stands for a trigger of another sort isn't looked up.
pub proof fn keys_are_what_they_name(s: Seq<char>, lookup: KeysymLookup)
    ensures
        ({
            let parts = pieces(s, '+');
            let name = parts.last();
            let held = modifiers_of(parts, parts.len() - 1);
            &&& key_of(s, lookup) matches Ok(key) ==> {
                &&& held is Ok
                &&& key.modifiers.0 == held->Ok_0
                &&& named_trigger(name) is Some ==> key.trigger == named_trigger(name)->0
                &&& named_trigger(name) is None ==> key.trigger is Keysym
                    && key.trigger->Keysym_0 != NO_SYMBOL
            }
            &&& key_of(s, lookup) is Err <==> held is Err || named_trigger(name) is None
                && bound_keysym(lookup) == NO_SYMBOL
            &&& held is Err ==> key_of(s, lookup)->Err_0 == KeyFault::Modifier(held->Err_0)
            &&& held is Ok && key_of(s, lookup) is Err ==> key_of(s, lookup)->Err_0
                == KeyFault::Key(name)
        }),
{
}

/// A name that stands for a keysym without regard to case stands for it. Only of the two
/// keysyms that differ in case alone the exact spelling decides, and what is spelled
/// like neither is the usual one.
pub proof fn keysyms_are_found_without_regard_to_case(lookup: KeysymLookup)
    ensures
        lookup.insensitive != XF86_SCREENSAVER ==> bound_keysym(lookup) == lookup.insensitive,
        lookup.insensitive == XF86_SCREENSAVER && lookup.exact != NO_SYMBOL ==> bound_keysym(lookup)
            == lookup.exact,
        lookup.insensitive == XF86_SCREENSAVER && lookup.exact == NO_SYMBOL ==> bound_keysym(lookup)
            == XF86_SCREEN_SAVER,
        bound_keysym(lookup) == NO_SYMBOL <==> lookup.insensitive == NO_SYMBOL,
{
}

proof fn lemma_property_names()
    ensures
        "repeat"@.len() == 6,
        "cooldown-ms"@.len() == 11,
        "allow-when-locked"@.len() == 17,
        "allow-inhibiting"@.len() == 16,
        "hotkey-overlay-title"@.len() == 20,
{
    reveal_strlit("repeat");
    reveal_strlit("cooldown-ms");
    reveal_strlit("allow-when-locked");
    reveal_strlit("allow-inhibiting");
    reveal_strlit("hotkey-overlay-title");
}

/// The last property `repeat` of a bind counts, and without one it is as usual.
pub proof fn last_repeat_counts(properties: Seq<(String, Value)>, n: int, k: int)
    requires
        -1 <= k < n <= properties.len(),
        k >= 0 ==> properties[k].0@ == "repeat"@,
        forall|i: int| k < i < n ==> (#[trigger] properties[i]).0@ != "repeat"@,
    ensures
        k >= 0 ==> properties_of(properties, n).repeat == bool_of(properties[k].1).0,
        k < 0 ==> properties_of(properties, n).repeat == true,
    decreases n,
{
    lemma_property_names();
    if n > k + 1 {
        last_repeat_counts(properties, n - 1, k);
    }
}

/// The last property `cooldown-ms` of a bind counts, and without one it is as usual.
pub proof fn last_cooldown_counts(properties: Seq<(String, Value)>, n: int, k: int)
    requires
        -1 <= k < n <= properties.len(),
        k >= 0 ==> properties[k].0@ == "cooldown-ms"@,
        forall|i: int| k < i < n ==> (#[trigger] properties[i]).0@ != "cooldown-ms"@,
    ensures
        k >= 0 ==> properties_of(properties, n).cooldown == Some(u64_of(properties[k].1).0),
        k < 0 ==> properties_of(properties, n).cooldown == None::<u64>,
    decreases n,
{
    lemma_property_names();
    if n > k + 1 {
        last_cooldown_counts(properties, n - 1, k);
    }
}

/// The last property `allow-when-locked` of a bind counts, and without one it is as usual.
pub proof fn last_when_locked_counts(properties: Seq<(String, Value)>, n: int, k: int)
    requires
        -1 <= k < n <= properties.len(),
        k >= 0 ==> properties[k].0@ == "allow-when-locked"@,
        forall|i: int| k < i < n ==> (#[trigger] properties[i]).0@ != "allow-when-locked"@,
    ensures
        k >= 0 ==> properties_of(properties, n).when_locked == bool_of(properties[k].1).0,
        k < 0 ==> properties_of(properties, n).when_locked == false,
    decreases n,
{
    lemma_property_names();
    if n > k + 1 {
        last_when_locked_counts(properties, n - 1, k);
    }
}

/// The last property `allow-inhibiting` of a bind counts, and without one it is as usual.
pub proof fn last_inhibiting_counts(properties: Seq<(String, Value)>, n: int, k: int)
    requires
        -1 <= k < n <= properties.len(),
        k >= 0 ==> properties[k].0@ == "allow-inhibiting"@,
        forall|i: int| k < i < n ==> (#[trigger] properties[i]).0@ != "allow-inhibiting"@,
    ensures
        k >= 0 ==> properties_of(properties, n).inhibiting == bool_of(properties[k].1).0,
        k < 0 ==> properties_of(properties, n).inhibiting == true,
    decreases n,
{
    lemma_property_names();
    if n > k + 1 {
        last_inhibiting_counts(properties, n - 1, k);
    }
}

/// The last property `hotkey-overlay-title` of a bind counts, and without one it is as usual.
pub proof fn last_title_counts(properties: Seq<(String, Value)>, n: int, k: int)
    requires
        -1 <= k < n <= properties.len(),
        k >= 0 ==> properties[k].0@ == "hotkey-overlay-title"@,
        forall|i: int| k < i < n ==> (#[trigger] properties[i]).0@ != "hotkey-overlay-title"@,
    ensures
        k >= 0 ==> properties_of(properties, n).title == Some(option_string_of(properties[k].1).0),
        k < 0 ==> properties_of(properties, n).title == None::<Option<Seq<char>>>,
    decreases n,
{
    lemma_property_names();
    if n > k + 1 {
        last_title_counts(properties, n - 1, k);
    }
}

/// A bind holds on to the key of its name. One with a valid action has that action and what
/// its properties say, and any other does nothing.
pub proof fn binds_do_what_they_say(node: Node, input: BindInput)
    ensures
        ({
            let key = key_of(node.name@, input.lookup);
            let p = properties_of(node.properties@, node.properties@.len() as int);
            let bind = bind_of(node, input);
            &&& bind is Ok <==> key is Ok
            &&& bind is Err ==> bind->Err_0 == key->Err_0
            &&& bind is Ok ==> bind->Ok_0.key == key->Ok_0
            &&& bind is Ok ==> (bind->Ok_0.action is Some <==> input.action is Some
                && input.action->0 is Ok)
            &&& bind is Ok && bind->Ok_0.action is Some ==> {
                &&& bind->Ok_0.action->0 == input.action->0->Ok_0
                &&& bind->Ok_0.repeat == p.repeat
                &&& bind->Ok_0.cooldown == p.cooldown
                &&& bind->Ok_0.when_locked == p.when_locked
                &&& bind->Ok_0.title == p.title
                &&& bind->Ok_0.inhibiting ==> p.inhibiting
                &&& p.inhibiting && !bind->Ok_0.inhibiting
                    ==> bind->Ok_0.action->0 is ToggleKeyboardShortcutsInhibit
            }
        }),
{
}

/// A value is read as what it is, and what it isn't is reported.
pub proof fn values_are_read_as_they_are(value: Value)
    ensures
        value.literal matches Literal::Bool(b) ==> bool_of(value).0 == b,
        bool_of(value).1.len() == 0 <==> value.literal is Bool && value.type_tag is None,
        value.literal matches Literal::Int(Some(v)) ==> 0 <= v <= u64::MAX ==> u64_of(value).0 == v,
        value.type_tag is None ==> (u64_of(value).1.len() == 0 <==> {
            &&& value.literal is Int
            &&& value.literal->Int_0 is Some
            &&& 0 <= value.literal->Int_0->0 <= u64::MAX
        }),
        value.literal matches Literal::String(s) ==> option_string_of(value).0 == Some(s@),
        value.literal is Null ==> option_string_of(value).0 is None,
        option_string_of(value).1.len() == 0 <==> (value.literal is String
            || value.literal is Null) && value.type_tag is None,
{
}

/// What a name is among the keysyms matters to a key exactly if it has to be looked up.
pub proof fn looked_up_names_matter(s: Seq<char>, a: KeysymLookup, b: KeysymLookup)
    ensures
        looked_up_name(s) is None ==> key_of(s, a) == key_of(s, b),
        looked_up_name(s) matches Some(name) ==> {
            &&& name == pieces(s, '+').last()
            &&& key_of(s, a) is Ok <==> bound_keysym(a) != NO_SYMBOL
            &&& key_of(s, a) matches Ok(key) ==> key.trigger == Trigger::Keysym(bound_keysym(a))
            &&& key_of(s, a) matches Err(fault) ==> fault == KeyFault::Key(name)
        },
{
}

/// A part sets what a switch does where it says anything about it, and leaves it otherwise.
pub proof fn switches_do_what_the_last_part_says(
    before: SwitchBinds,
    part: SwitchBinds,
    after: SwitchBinds,
)
    requires
        before.merges_to(&part, &after),
    ensures
        part.lid_open is Some ==> switch_command(after.lid_open) == switch_command(part.lid_open),
        part.lid_close is Some ==> switch_command(after.lid_close) == switch_command(
            part.lid_close,
        ),
        part.tablet_mode_on is Some ==> switch_command(after.tablet_mode_on) == switch_command(
            part.tablet_mode_on,
        ),
        part.tablet_mode_off is Some ==> switch_command(after.tablet_mode_off) == switch_command(
            part.tablet_mode_off,
        ),
        part.lid_open is None ==> switch_command(after.lid_open) == switch_command(
            before.lid_open,
        ),
        part.lid_close is None ==> switch_command(after.lid_close) == switch_command(
            before.lid_close,
        ),
        part.tablet_mode_on is None ==> switch_command(after.tablet_mode_on) == switch_command(
            before.tablet_mode_on,
        ),
        part.tablet_mode_off is None ==> switch_command(after.tablet_mode_off) == switch_command(
            before.tablet_mode_off,
        ),
{
}

} // verus!
