//! Key binds and switch events.

use vstd::prelude::*;
use crate::config::action::Action;
use crate::config::node::{
    argument_errors, bool_of, decode_bool, decode_option_string, decode_u64, expect_no_arguments,
    expect_no_type, expect_only_children, only_children_errors, option_string_of, u64_of,
    untyped_errors, DecodeError, KeyError, Node, Value,
};
use crate::config::utils::MergeWith;
use crate::text::{
    clone_strings, eq_ignore_ascii_case, option_view, pieces, same_ignoring_ascii_case, slice_views,
    split, str_eq, trim, trimmed,
};

verus! {

/// The control key is held.
pub const CTRL: u8 = 1;

/// The shift key is held.
pub const SHIFT: u8 = 2;

/// The alt key is held.
pub const ALT: u8 = 4;

/// The super key is held.
pub const SUPER: u8 = 8;

/// The level three shift key is held.
pub const ISO_LEVEL3_SHIFT: u8 = 16;

/// The level five shift key is held.
pub const ISO_LEVEL5_SHIFT: u8 = 32;

/// The modifier of the compositor is held, whichever key it is.
pub const COMPOSITOR: u8 = 64;

/// The keysym that stands for no key.
pub const NO_SYMBOL: u32 = 0;

/// The keysym `XF86ScreenSaver`.
pub const XF86_SCREEN_SAVER: u32 = 0x1008_ff2d;

/// The keysym `XF86Screensaver`, which differs from the other one in case only.
pub const XF86_SCREENSAVER: u32 = 0x1008_1245;

/// A set of modifier keys, one bit for each.
#[derive(Debug, Clone, Copy, PartialEq, Eq, Structural, Hash)]
pub struct Modifiers(pub u8);

impl Modifiers {
    pub fn empty() -> (r: Self)
        ensures
            r == Modifiers(0),
    {
        Modifiers(0)
    }
}

/// What sets off a bind.
#[derive(Debug, Clone, Copy, PartialEq, Eq, Structural, Hash)]
pub enum Trigger {
    /// A key, by its keysym.
    Keysym(u32),
    MouseLeft,
    MouseRight,
    MouseMiddle,
    MouseBack,
    MouseForward,
    WheelScrollDown,
    WheelScrollUp,
    WheelScrollLeft,
    WheelScrollRight,
    TouchpadScrollDown,
    TouchpadScrollUp,
    TouchpadScrollLeft,
    TouchpadScrollRight,
}

/// A key with the modifiers held.
#[derive(Debug, Clone, Copy, PartialEq, Eq, Structural, Hash)]
pub struct Key {
    pub trigger: Trigger,
    pub modifiers: Modifiers,
}

/// The keysyms that the name of a key stands for; [`NO_SYMBOL`] where it stands
/// for none.
#[derive(Debug, Clone, Copy, PartialEq, Eq, Structural)]
pub struct KeysymLookup {
    /// Found without regard to case.
    pub insensitive: u32,
    /// Found by the exact name.
    pub exact: u32,
}

/// What is wrong with the name of a key.
pub enum KeyFault {
    Modifier(Seq<char>),
    Key(Seq<char>),
}

/// Whether an error says this of the name of a key.
pub open spec fn reports(error: KeyError, fault: KeyFault) -> bool {
    match fault {
        KeyFault::Modifier(part) => error matches KeyError::InvalidModifier(s) && s@ == part,
        KeyFault::Key(name) => error matches KeyError::InvalidKey(s) && s@ == name,
    }
}

/// The modifier with this name.
pub open spec fn modifier_of(part: Seq<char>) -> Option<u8> {
    if same_ignoring_ascii_case(part, "mod"@) {
        Some(COMPOSITOR)
    } else if same_ignoring_ascii_case(part, "ctrl"@) || same_ignoring_ascii_case(
        part,
        "control"@,
    ) {
        Some(CTRL)
    } else if same_ignoring_ascii_case(part, "shift"@) {
        Some(SHIFT)
    } else if same_ignoring_ascii_case(part, "alt"@) {
        Some(ALT)
    } else if same_ignoring_ascii_case(part, "super"@) || same_ignoring_ascii_case(part, "win"@) {
        Some(SUPER)
    } else if same_ignoring_ascii_case(part, "iso_level3_shift"@) || same_ignoring_ascii_case(
        part,
        "mod5"@,
    ) {
        Some(ISO_LEVEL3_SHIFT)
    } else if same_ignoring_ascii_case(part, "iso_level5_shift"@) || same_ignoring_ascii_case(
        part,
        "mod3"@,
    ) {
        Some(ISO_LEVEL5_SHIFT)
    } else {
        None
    }
}

fn read_modifier(part: &str) -> (r: Option<u8>)
    ensures
        r == modifier_of(part@),
{
    if eq_ignore_ascii_case(part, "mod") {
        Some(COMPOSITOR)
    } else if eq_ignore_ascii_case(part, "ctrl") || eq_ignore_ascii_case(part, "control") {
        Some(CTRL)
    } else if eq_ignore_ascii_case(part, "shift") {
        Some(SHIFT)
    } else if eq_ignore_ascii_case(part, "alt") {
        Some(ALT)
    } else if eq_ignore_ascii_case(part, "super") || eq_ignore_ascii_case(part, "win") {
        Some(SUPER)
    } else if eq_ignore_ascii_case(part, "iso_level3_shift") || eq_ignore_ascii_case(
        part,
        "mod5",
    ) {
        Some(ISO_LEVEL3_SHIFT)
    } else if eq_ignore_ascii_case(part, "iso_level5_shift") || eq_ignore_ascii_case(
        part,
        "mod3",
    ) {
        Some(ISO_LEVEL5_SHIFT)
    } else {
        None
    }
}

/// The modifiers that the first `n` parts name, or the first part that names
/// none.
pub open spec fn modifiers_of(parts: Seq<Seq<char>>, n: int) -> Result<u8, Seq<char>>
    decreases n,
{
    if n <= 0 {
        Ok(0u8)
    } else {
        match modifiers_of(parts, n - 1) {
            Err(part) => Err(part),
            Ok(held) => match modifier_of(trimmed(parts[n - 1])) {
                Some(modifier) => Ok(held | modifier),
                None => Err(trimmed(parts[n - 1])),
            },
        }
    }
}

/// The trigger that isn't a key with this name.
pub open spec fn named_trigger(key: Seq<char>) -> Option<Trigger> {
    if same_ignoring_ascii_case(key, "MouseLeft"@) {
        Some(Trigger::MouseLeft)
    } else if same_ignoring_ascii_case(key, "MouseRight"@) {
        Some(Trigger::MouseRight)
    } else if same_ignoring_ascii_case(key, "MouseMiddle"@) {
        Some(Trigger::MouseMiddle)
    } else if same_ignoring_ascii_case(key, "MouseBack"@) {
        Some(Trigger::MouseBack)
    } else if same_ignoring_ascii_case(key, "MouseForward"@) {
        Some(Trigger::MouseForward)
    } else if same_ignoring_ascii_case(key, "WheelScrollDown"@) {
        Some(Trigger::WheelScrollDown)
    } else if same_ignoring_ascii_case(key, "WheelScrollUp"@) {
        Some(Trigger::WheelScrollUp)
    } else if same_ignoring_ascii_case(key, "WheelScrollLeft"@) {
        Some(Trigger::WheelScrollLeft)
    } else if same_ignoring_ascii_case(key, "WheelScrollRight"@) {
        Some(Trigger::WheelScrollRight)
    } else if same_ignoring_ascii_case(key, "TouchpadScrollDown"@) {
        Some(Trigger::TouchpadScrollDown)
    } else if same_ignoring_ascii_case(key, "TouchpadScrollUp"@) {
        Some(Trigger::TouchpadScrollUp)
    } else if same_ignoring_ascii_case(key, "TouchpadScrollLeft"@) {
        Some(Trigger::TouchpadScrollLeft)
    } else if same_ignoring_ascii_case(key, "TouchpadScrollRight"@) {
        Some(Trigger::TouchpadScrollRight)
    } else {
        None
    }
}

fn read_named_trigger(key: &str) -> (r: Option<Trigger>)
    ensures
        r == named_trigger(key@),
{
    if eq_ignore_ascii_case(key, "MouseLeft") {
        Some(Trigger::MouseLeft)
    } else if eq_ignore_ascii_case(key, "MouseRight") {
        Some(Trigger::MouseRight)
    } else if eq_ignore_ascii_case(key, "MouseMiddle") {
        Some(Trigger::MouseMiddle)
    } else if eq_ignore_ascii_case(key, "MouseBack") {
        Some(Trigger::MouseBack)
    } else if eq_ignore_ascii_case(key, "MouseForward") {
        Some(Trigger::MouseForward)
    } else if eq_ignore_ascii_case(key, "WheelScrollDown") {
        Some(Trigger::WheelScrollDown)
    } else if eq_ignore_ascii_case(key, "WheelScrollUp") {
        Some(Trigger::WheelScrollUp)
    } else if eq_ignore_ascii_case(key, "WheelScrollLeft") {
        Some(Trigger::WheelScrollLeft)
    } else if eq_ignore_ascii_case(key, "WheelScrollRight") {
        Some(Trigger::WheelScrollRight)
    } else if eq_ignore_ascii_case(key, "TouchpadScrollDown") {
        Some(Trigger::TouchpadScrollDown)
    } else if eq_ignore_ascii_case(key, "TouchpadScrollUp") {
        Some(Trigger::TouchpadScrollUp)
    } else if eq_ignore_ascii_case(key, "TouchpadScrollLeft") {
        Some(Trigger::TouchpadScrollLeft)
    } else if eq_ignore_ascii_case(key, "TouchpadScrollRight") {
        Some(Trigger::TouchpadScrollRight)
    } else {
        None
    }
}

/// The keysym that a name is bound to.
///
/// Two keysyms differ in case only, so a name found without regard to case is
/// looked up by its exact spelling where it might be either; a spelling that is
/// neither of them stands for `XF86ScreenSaver`.
pub open spec fn bound_keysym(lookup: KeysymLookup) -> u32 {
    if lookup.insensitive != XF86_SCREENSAVER {
        lookup.insensitive
    } else if lookup.exact != NO_SYMBOL {
        lookup.exact
    } else {
        XF86_SCREEN_SAVER
    }
}

/// The key that a text names.
pub open spec fn key_of(s: Seq<char>, lookup: KeysymLookup) -> Result<Key, KeyFault> {
    let parts = pieces(s, '+');
    let name = parts.last();
    match modifiers_of(parts, parts.len() - 1) {
        Err(part) => Err(KeyFault::Modifier(part)),
        Ok(held) => match named_trigger(name) {
            Some(trigger) => Ok(Key { trigger, modifiers: Modifiers(held) }),
            None => if bound_keysym(lookup) == NO_SYMBOL {
                Err(KeyFault::Key(name))
            } else {
                Ok(
                    Key {
                        trigger: Trigger::Keysym(bound_keysym(lookup)),
                        modifiers: Modifiers(held),
                    },
                )
            },
        },
    }
}

/// The name that has to be looked up among the keysyms to read a key.
pub open spec fn looked_up_name(s: Seq<char>) -> Option<Seq<char>> {
    let parts = pieces(s, '+');
    if named_trigger(parts.last()) is None && modifiers_of(parts, parts.len() - 1) is Ok {
        Some(parts.last())
    } else {
        None
    }
}

/// Reads the modifiers in front of a key, and returns them with the key's name.
fn split_key(s: &str) -> (r: Result<(u8, &str), KeyError>)
    ensures
        ({
            let parts = pieces(s@, '+');
            match modifiers_of(parts, parts.len() - 1) {
                Ok(held) => r is Ok && r->Ok_0.0 == held && r->Ok_0.1@ == parts.last(),
                Err(part) => r is Err && reports(r->Err_0, KeyFault::Modifier(part)),
            }
        }),
{
    let parts = split(s, '+');
    let n: usize = parts.len();
    let mut held: u8 = 0;
    let mut i: usize = 0;
    while i < n - 1
        invariant
            slice_views(parts@) == pieces(s@, '+'),
            n == parts@.len(),
            n > 0,
            i <= n - 1,
            modifiers_of(pieces(s@, '+'), i as int) == Ok::<u8, Seq<char>>(held),
        decreases n - 1 - i,
    {
        assert(slice_views(parts@)[i as int] == parts@[i as int]@);
        let part = trim(parts[i]);
        match read_modifier(part) {
            Some(modifier) => {
                held = held | modifier;
            },
            None => {
                proof {
                    lemma_modifier_fault(pieces(s@, '+'), i + 1, n - 1);
                }
                return Err(KeyError::InvalidModifier(part.to_owned()));
            },
        }
        i += 1;
    }
    assert(slice_views(parts@)[n - 1] == parts@[n - 1]@);
    Ok((held, parts[n - 1]))
}

/// A part that names no modifier is reported whatever follows it.
proof fn lemma_modifier_fault(parts: Seq<Seq<char>>, i: int, n: int)
    requires
        0 <= i <= n,
        modifiers_of(parts, i) is Err,
    ensures
        modifiers_of(parts, n) == modifiers_of(parts, i),
    decreases n - i,
{
    if i < n {
        lemma_modifier_fault(parts, i, n - 1);
    }
}

impl Key {
    /// The name that has to be looked up among the keysyms to read a key. There
    /// is none where the text is wrong before its last part or where that part
    /// names a trigger of another sort.
    pub fn keysym_name(s: &str) -> (r: Option<&str>)
        ensures
            match r {
                Some(name) => looked_up_name(s@) == Some(name@),
                None => looked_up_name(s@) is None,
            },
    {
        match split_key(s) {
            Ok((_held, name)) => if read_named_trigger(name).is_some() {
                None
            } else {
                Some(name)
            },
            Err(_) => None,
        }
    }

    /// Reads a key such as `Mod+Shift+T`. The keysyms are those that the name
    /// behind the last plus sign stands for.
    pub fn from_str(s: &str, lookup: KeysymLookup) -> (r: Result<Key, KeyError>)
        ensures
            match key_of(s@, lookup) {
                Ok(key) => r == Ok::<Key, KeyError>(key),
                Err(fault) => r is Err && reports(r->Err_0, fault),
            },
    {
        let (held, name) = match split_key(s) {
            Ok(split) => split,
            Err(err) => {
                return Err(err);
            },
        };
        let trigger = match read_named_trigger(name) {
            Some(trigger) => trigger,
            None => {
                let mut keysym: u32 = lookup.insensitive;
                if keysym == XF86_SCREENSAVER {
                    keysym = lookup.exact;
                    if keysym == NO_SYMBOL {
                        keysym = XF86_SCREEN_SAVER;
                    }
                }
                if keysym == NO_SYMBOL {
                    return Err(KeyError::InvalidKey(name.to_owned()));
                }
                Trigger::Keysym(keysym)
            },
        };
        Ok(Key { trigger, modifiers: Modifiers(held) })
    }
}

/// An action for a key.
#[derive(Debug)]
pub struct Bind {
    pub key: Key,
    pub action: Action,
    /// The action repeats while the key is held.
    pub repeat: bool,
    /// Milliseconds for which the action can't be set off again.
    pub cooldown: Option<u64>,
    /// The bind works while the session is locked.
    pub allow_when_locked: bool,
    /// A client can keep the bind from working.
    pub allow_inhibiting: bool,
    /// What the list of hotkeys calls the bind; `Some(None)` hides it there.
    pub hotkey_overlay_title: Option<Option<String>>,
}

/// Key binds, no two of them for the same key.
#[derive(Debug)]
pub struct Binds(pub Vec<Bind>);

/// What the properties of a bind say.
pub struct BindProperties {
    pub repeat: bool,
    pub cooldown: Option<u64>,
    pub when_locked: bool,
    /// `allow-when-locked` is among the properties.
    pub when_locked_set: bool,
    pub inhibiting: bool,
    pub title: Option<Option<Seq<char>>>,
    pub errors: Seq<DecodeError>,
}

/// The properties of a bind with one more.
pub open spec fn with_property(p: BindProperties, name: String, value: Value) -> BindProperties {
    if name@ == "repeat"@ {
        BindProperties { repeat: bool_of(value).0, errors: p.errors + bool_of(value).1, ..p }
    } else if name@ == "cooldown-ms"@ {
        BindProperties { cooldown: Some(u64_of(value).0), errors: p.errors + u64_of(value).1, ..p }
    } else if name@ == "allow-when-locked"@ {
        BindProperties {
            when_locked: bool_of(value).0,
            when_locked_set: true,
            errors: p.errors + bool_of(value).1,
            ..p
        }
    } else if name@ == "allow-inhibiting"@ {
        BindProperties { inhibiting: bool_of(value).0, errors: p.errors + bool_of(value).1, ..p }
    } else if name@ == "hotkey-overlay-title"@ {
        BindProperties {
            title: Some(option_string_of(value).0),
            errors: p.errors + option_string_of(value).1,
            ..p
        }
    } else {
        BindProperties { errors: p.errors.push(DecodeError::Property { name }), ..p }
    }
}

/// What the first `n` properties of a bind say.
pub open spec fn properties_of(properties: Seq<(String, Value)>, n: int) -> BindProperties
    decreases n,
{
    if n <= 0 {
        BindProperties {
            repeat: true,
            cooldown: None,
            when_locked: false,
            when_locked_set: false,
            inhibiting: true,
            title: None,
            errors: seq![],
        }
    } else {
        with_property(
            properties_of(properties, n - 1),
            properties[n - 1].0,
            properties[n - 1].1,
        )
    }
}

/// What was found out about a bind besides what its node says.
#[derive(Debug)]
pub struct BindInput {
    /// The keysyms that the bind's name stands for.
    pub lookup: KeysymLookup,
    /// The action that the bind's first child stands for, or the number of the
    /// reason why it stands for none; `None` where there is no child.
    pub action: Option<Result<Action, u64>>,
}

/// A bind as it is described.
pub struct BindState {
    pub key: Key,
    /// The action; `None` for one that does nothing.
    pub action: Option<Action>,
    pub repeat: bool,
    pub cooldown: Option<u64>,
    pub when_locked: bool,
    pub inhibiting: bool,
    pub title: Option<Option<Seq<char>>>,
}

/// The title of a bind.
pub open spec fn title_view(title: Option<Option<String>>) -> Option<Option<Seq<char>>> {
    match title {
        Some(t) => Some(option_view(t)),
        None => None,
    }
}

impl Bind {
    /// Whether this is the bind that `s` describes.
    pub open spec fn is(self, s: BindState) -> bool {
        &&& self.key == s.key
        &&& match s.action {
            Some(action) => self.action == action,
            None => self.action matches Action::Spawn(command) && command@.len() == 0,
        }
        &&& self.repeat == s.repeat
        &&& self.cooldown == s.cooldown
        &&& self.allow_when_locked == s.when_locked
        &&& self.allow_inhibiting == s.inhibiting
        &&& title_view(self.hotkey_overlay_title) == s.title
    }
}

/// A bind that holds on to its key and does nothing.
pub open spec fn dummy_bind(key: Key) -> BindState {
    BindState {
        key,
        action: None,
        repeat: true,
        cooldown: None,
        when_locked: false,
        inhibiting: true,
        title: None,
    }
}

/// The bind that a node describes. One without a valid action still holds on to
/// its key. The bind that toggles inhibiting can't be inhibited itself.
pub open spec fn bind_of(node: Node, input: BindInput) -> Result<BindState, KeyFault> {
    let p = properties_of(node.properties@, node.properties@.len() as int);
    match key_of(node.name@, input.lookup) {
        Err(fault) => Err(fault),
        Ok(key) => match input.action {
            Some(Ok(action)) => Ok(
                BindState {
                    key,
                    action: Some(action),
                    repeat: p.repeat,
                    cooldown: p.cooldown,
                    when_locked: p.when_locked,
                    inhibiting: p.inhibiting && !(action is ToggleKeyboardShortcutsInhibit),
                    title: p.title,
                },
            ),
            _ => Ok(dummy_bind(key)),
        },
    }
}

/// What is wrong with the action of a bind.
pub open spec fn action_errors(node: Node, input: BindInput, when_locked_set: bool) -> Seq<
    DecodeError,
> {
    let many = Seq::new((node.children@.len() - 1) as nat, |i: int| DecodeError::ManyActions);
    match input.action {
        None => seq![DecodeError::MissingAction],
        Some(Err(reason)) => many.push(DecodeError::Action(reason)),
        Some(Ok(action)) => if when_locked_set && !(action is Spawn) && !(action is SpawnSh) {
            many.push(DecodeError::LockedBind)
        } else {
            many
        },
    }
}

/// What is wrong with the node of a bind. A name that isn't a key is not in
/// here, but ends the matter.
pub open spec fn bind_errors(node: Node, input: BindInput) -> Seq<DecodeError> {
    let header = untyped_errors(node.type_tag) + argument_errors(node.arguments@.len());
    let p = properties_of(node.properties@, node.properties@.len() as int);
    match key_of(node.name@, input.lookup) {
        Err(_) => header,
        Ok(_) => header + p.errors + action_errors(node, input, p.when_locked_set),
    }
}

/// The properties of a bind as they are read.
struct PropertyValues {
    repeat: bool,
    cooldown: Option<u64>,
    when_locked: bool,
    when_locked_set: bool,
    inhibiting: bool,
    title: Option<Option<String>>,
}

impl PropertyValues {
    spec fn agrees(self, p: BindProperties) -> bool {
        &&& self.repeat == p.repeat
        &&& self.cooldown == p.cooldown
        &&& self.when_locked == p.when_locked
        &&& self.when_locked_set == p.when_locked_set
        &&& self.inhibiting == p.inhibiting
        &&& title_view(self.title) == p.title
    }

    fn read(&mut self, name: &String, value: &Value, errors: &mut Vec<DecodeError>)
        ensures
            forall|p: BindProperties|
                #![trigger with_property(p, *name, *value)]
                old(self).agrees(p) ==> {
                    let after = with_property(p, *name, *value);
                    &&& final(self).agrees(after)
                    &&& forall|base: Seq<DecodeError>|
                        old(errors)@ == #[trigger] (base + p.errors) ==> final(errors)@ == base
                            + after.errors
                },
    {
        let ghost e0 = errors@;
        let ghost mut added: Seq<DecodeError> = seq![];
        if str_eq(name.as_str(), "repeat") {
            self.repeat = decode_bool(value, errors);
            proof {
                added = bool_of(*value).1;
            }
        } else if str_eq(name.as_str(), "cooldown-ms") {
            self.cooldown = Some(decode_u64(value, errors));
            proof {
                added = u64_of(*value).1;
            }
        } else if str_eq(name.as_str(), "allow-when-locked") {
            self.when_locked = decode_bool(value, errors);
            self.when_locked_set = true;
            proof {
                added = bool_of(*value).1;
            }
        } else if str_eq(name.as_str(), "allow-inhibiting") {
            self.inhibiting = decode_bool(value, errors);
            proof {
                added = bool_of(*value).1;
            }
        } else if str_eq(name.as_str(), "hotkey-overlay-title") {
            self.title = Some(decode_option_string(value, errors));
            proof {
                added = option_string_of(*value).1;
            }
        } else {
            errors.push(DecodeError::Property { name: name.clone() });
            proof {
                added = seq![DecodeError::Property { name: *name }];
            }
        }
        proof {
            assert(errors@ =~= e0 + added);
            assert forall|p: BindProperties|
                #![trigger with_property(p, *name, *value)]
                old(self).agrees(p) implies {
                let after = with_property(p, *name, *value);
                &&& self.agrees(after)
                &&& forall|base: Seq<DecodeError>|
                    e0 == #[trigger] (base + p.errors) ==> errors@ == base + after.errors
            } by {
                let after = with_property(p, *name, *value);
                assert(after.errors =~= p.errors + added);
                assert forall|base: Seq<DecodeError>| e0 == #[trigger] (base + p.errors) implies
                errors@ == base + after.errors by {
                    assert(base + after.errors =~= (base + p.errors) + added);
                }
            }
        }
    }
}

fn dummy(key: Key) -> (r: Bind)
    ensures
        r.is(dummy_bind(key)),
{
    Bind {
        key,
        action: Action::Spawn(Vec::new()),
        repeat: true,
        cooldown: None,
        allow_when_locked: false,
        allow_inhibiting: true,
        hotkey_overlay_title: None,
    }
}

/// Whether an error is the one for a bind with a wrong name.
pub open spec fn reports_keybind(error: DecodeError, fault: KeyFault) -> bool {
    error matches DecodeError::Keybind(e) && reports(e, fault)
}

impl Bind {
    /// Reads a key bind.
    pub fn decode_node(node: &Node, input: BindInput, errors: &mut Vec<DecodeError>) -> (r: Result<
        Bind,
        DecodeError,
    >)
        requires
            input.action is Some <==> node.children@.len() > 0,
        ensures
            match bind_of(*node, input) {
                Ok(bind) => r is Ok && r->Ok_0.is(bind),
                Err(fault) => r is Err && reports_keybind(r->Err_0, fault),
            },
            final(errors)@ == old(errors)@ + bind_errors(*node, input),
    {
        expect_no_type(&node.type_tag, errors);
        expect_no_arguments(&node.arguments, errors);
        let ghost header = untyped_errors(node.type_tag) + argument_errors(node.arguments@.len());
        let ghost base = old(errors)@ + header;
        assert(errors@ =~= base);
        let key = match Key::from_str(node.name.as_str(), input.lookup) {
            Ok(key) => key,
            Err(err) => {
                return Err(DecodeError::Keybind(err));
            },
        };
        let mut values = PropertyValues {
            repeat: true,
            cooldown: None,
            when_locked: false,
            when_locked_set: false,
            inhibiting: true,
            title: None,
        };
        let ghost properties = node.properties@;
        let n: usize = node.properties.len();
        let mut i: usize = 0;
        assert(base + properties_of(properties, 0).errors =~= base);
        while i < n
            invariant
                properties == node.properties@,
                n == properties.len(),
                i <= n,
                values.agrees(properties_of(properties, i as int)),
                errors@ == base + properties_of(properties, i as int).errors,
            decreases n - i,
        {
            let property = &node.properties[i];
            let ghost p = properties_of(properties, i as int);
            values.read(&property.0, &property.1, errors);
            assert(properties_of(properties, i + 1) == with_property(
                p,
                property.0,
                property.1,
            ));
            i += 1;
        }
        let ghost p = properties_of(properties, n as int);
        let ghost read = errors@;
        let action = match input.action {
            Some(action) => action,
            None => {
                errors.push(DecodeError::MissingAction);
                proof {
                    assert(errors@ =~= old(errors)@ + bind_errors(*node, input));
                }
                return Ok(dummy(key));
            },
        };
        let ghost many = Seq::new(
            (node.children@.len() - 1) as nat,
            |i: int| DecodeError::ManyActions,
        );
        let extra: usize = node.children.len() - 1;
        let mut k: usize = 0;
        assert(read + many.take(0) =~= read);
        while k < extra
            invariant
                extra == node.children@.len() - 1,
                k <= extra,
                many == Seq::new(
                    (node.children@.len() - 1) as nat,
                    |i: int| DecodeError::ManyActions,
                ),
                errors@ == read + many.take(k as int),
            decreases extra - k,
        {
            errors.push(DecodeError::ManyActions);
            assert(errors@ =~= read + many.take(k + 1));
            k += 1;
        }
        assert(many.take(k as int) =~= many);
        match action {
            Ok(action) => {
                let spawns = matches!(action, Action::Spawn(_) | Action::SpawnSh(_));
                if !spawns && values.when_locked_set {
                    errors.push(DecodeError::LockedBind);
                }
                let toggles = matches!(action, Action::ToggleKeyboardShortcutsInhibit);
                proof {
                    assert(errors@ =~= old(errors)@ + bind_errors(*node, input));
                }
                Ok(
                    Bind {
                        key,
                        action,
                        repeat: values.repeat,
                        cooldown: values.cooldown,
                        allow_when_locked: values.when_locked,
                        allow_inhibiting: values.inhibiting && !toggles,
                        hotkey_overlay_title: values.title,
                    },
                )
            },
            Err(reason) => {
                errors.push(DecodeError::Action(reason));
                proof {
                    assert(errors@ =~= old(errors)@ + bind_errors(*node, input));
                }
                Ok(dummy(key))
            },
        }
    }
}

/// The toggle for inhibiting shortcuts can always be used: no bind for it can
/// be inhibited.
pub proof fn inhibit_toggle_is_not_inhibitable(node: Node, input: BindInput)
    requires
        input.action matches Some(Ok(action)) && action is ToggleKeyboardShortcutsInhibit,
    ensures
        bind_of(node, input) matches Ok(bind) ==> !bind.inhibiting,
{
}

/// What an error says.
pub enum ErrorState {
    /// A bind has a wrong name.
    Keybind(KeyFault),
    /// Anything else.
    Other(DecodeError),
}

/// What is wrong with the name of a key, as an error tells it.
pub open spec fn fault_of(error: KeyError) -> KeyFault {
    match error {
        KeyError::InvalidModifier(part) => KeyFault::Modifier(part@),
        KeyError::InvalidKey(name) => KeyFault::Key(name@),
    }
}

/// What an error says.
pub open spec fn error_state(error: DecodeError) -> ErrorState {
    match error {
        DecodeError::Keybind(e) => ErrorState::Keybind(fault_of(e)),
        _ => ErrorState::Other(error),
    }
}

/// What errors say.
pub open spec fn error_states(errors: Seq<DecodeError>) -> Seq<ErrorState> {
    Seq::new(errors.len(), |i: int| error_state(errors[i]))
}

/// The first of the binds at or after `i` for a key, or their number.
pub open spec fn bind_from(binds: Seq<BindState>, key: Key, i: int) -> int
    decreases binds.len() - i,
{
    if i >= binds.len() {
        binds.len() as int
    } else if binds[i].key == key {
        i
    } else {
        bind_from(binds, key, i + 1)
    }
}

/// Binds of a section, where each is among the children, and what is wrong.
pub struct BindsState {
    pub binds: Seq<BindState>,
    pub places: Seq<int>,
    pub errors: Seq<ErrorState>,
}

/// The binds that the first `n` children describe. Of two for the same key the
/// first one stays, and both are reported.
pub open spec fn binds_of(children: Seq<Node>, inputs: Seq<BindInput>, n: int) -> BindsState
    decreases n,
{
    if n <= 0 {
        BindsState { binds: seq![], places: seq![], errors: seq![] }
    } else {
        let before = binds_of(children, inputs, n - 1);
        let errors = before.errors + error_states(bind_errors(children[n - 1], inputs[n - 1]));
        match bind_of(children[n - 1], inputs[n - 1]) {
            Err(fault) => BindsState { errors: errors.push(ErrorState::Keybind(fault)), ..before },
            Ok(bind) => {
                let first = bind_from(before.binds, bind.key, 0);
                if first < before.binds.len() {
                    BindsState {
                        errors: errors.push(
                            ErrorState::Other(
                                DecodeError::FirstBind(before.places[first] as usize),
                            ),
                        ).push(ErrorState::Other(DecodeError::DuplicateBind((n - 1) as usize))),
                        ..before
                    }
                } else {
                    BindsState {
                        binds: before.binds.push(bind),
                        places: before.places.push(n - 1),
                        errors,
                    }
                }
            },
        }
    }
}

/// Whether these are the binds that `states` describe.
pub open spec fn are_binds(binds: Seq<Bind>, states: Seq<BindState>) -> bool {
    &&& binds.len() == states.len()
    &&& forall|i: int| 0 <= i < binds.len() ==> (#[trigger] binds[i]).is(states[i])
}

/// No two binds are for the same key.
pub open spec fn keys_are_unique(binds: Seq<Bind>) -> bool {
    forall|i: int, j: int|
        0 <= i < j < binds.len() ==> (#[trigger] binds[i]).key != (#[trigger] binds[j]).key
}

proof fn lemma_bind_from(binds: Seq<BindState>, key: Key, i: int)
    requires
        0 <= i <= binds.len(),
    ensures
        i <= bind_from(binds, key, i) <= binds.len(),
        bind_from(binds, key, i) < binds.len() ==> binds[bind_from(binds, key, i)].key == key,
        forall|j: int| i <= j < bind_from(binds, key, i) ==> binds[j].key != key,
    decreases binds.len() - i,
{
    if i < binds.len() && binds[i].key != key {
        lemma_bind_from(binds, key, i + 1);
    }
}

/// A section never gives two binds for the same key.
pub proof fn section_keys_are_unique(children: Seq<Node>, inputs: Seq<BindInput>, n: int)
    requires
        0 <= n,
    ensures
        ({
            let binds = binds_of(children, inputs, n).binds;
            forall|i: int, j: int|
                0 <= i < j < binds.len() ==> (#[trigger] binds[i]).key != (#[trigger] binds[j]).key
        }),
    decreases n,
{
    if n > 0 {
        section_keys_are_unique(children, inputs, n - 1);
        let before = binds_of(children, inputs, n - 1);
        if let Ok(bind) = bind_of(children[n - 1], inputs[n - 1]) {
            lemma_bind_from(before.binds, bind.key, 0);
        }
    }
}

/// The first of the binds for a key, or their number.
fn find_bind(binds: &Vec<Bind>, key: Key, Ghost(states): Ghost<Seq<BindState>>) -> (r: usize)
    requires
        are_binds(binds@, states),
    ensures
        r == bind_from(states, key, 0),
        r <= binds@.len(),
{
    let mut i: usize = 0;
    while i < binds.len()
        invariant
            are_binds(binds@, states),
            i <= binds@.len(),
            bind_from(states, key, 0) == bind_from(states, key, i as int),
        decreases binds@.len() - i,
    {
        assert(binds@[i as int].is(states[i as int]));
        if binds[i].key == key {
            return i;
        }
        i += 1;
    }
    i
}

impl Binds {
    /// Reads the binds of a section, given what was found out about each of its
    /// children.
    pub fn decode_node(
        node: &Node,
        inputs: Vec<BindInput>,
        errors: &mut Vec<DecodeError>,
    ) -> (r: Binds)
        requires
            inputs@.len() == node.children@.len(),
            forall|i: int|
                0 <= i < inputs@.len() ==> ((#[trigger] inputs@[i]).action is Some
                    <==> node.children@[i].children@.len() > 0),
        ensures
            ({
                let section = binds_of(node.children@, inputs@, inputs@.len() as int);
                &&& are_binds(r.0@, section.binds)
                &&& error_states(final(errors)@) == error_states(old(errors)@) + error_states(
                    only_children_errors(*node),
                ) + section.errors
            }),
            keys_are_unique(r.0@),
    {
        expect_only_children(node, errors);
        let ghost base = error_states(old(errors)@) + error_states(only_children_errors(*node));
        assert(error_states(errors@) =~= base);
        let mut binds: Vec<Bind> = Vec::new();
        let mut places: Vec<usize> = Vec::new();
        let ghost all = inputs@;
        let mut inputs = inputs;
        let n: usize = node.children.len();
        let mut i: usize = 0;
        assert(base + binds_of(node.children@, all, 0).errors =~= base);
        assert(all.skip(0) =~= all);
        while i < n
            invariant
                n == node.children@.len(),
                n == all.len(),
                i <= n,
                inputs@ == all.skip(i as int),
                forall|j: int|
                    0 <= j < all.len() ==> ((#[trigger] all[j]).action is Some
                        <==> node.children@[j].children@.len() > 0),
                are_binds(binds@, binds_of(node.children@, all, i as int).binds),
                binds@.len() == places@.len(),
                places@.len() == binds_of(node.children@, all, i as int).places.len(),
                forall|j: int|
                    0 <= j < places@.len() ==> #[trigger] places@[j] == binds_of(
                        node.children@,
                        all,
                        i as int,
                    ).places[j],
                error_states(errors@) == base + binds_of(node.children@, all, i as int).errors,
            decreases n - i,
        {
            let ghost before = binds_of(node.children@, all, i as int);
            let ghost after = binds_of(node.children@, all, i + 1);
            let ghost e0 = errors@;
            let input = inputs.remove(0);
            assert(input == all[i as int]);
            assert(inputs@ =~= all.skip(i + 1));
            let child = &node.children[i];
            let decoded = Bind::decode_node(child, input, errors);
            let ghost e1 = errors@;
            proof {
                assert(error_states(e1) =~= error_states(e0) + error_states(
                    bind_errors(*child, input),
                ));
            }
            match decoded {
                Err(err) => {
                    errors.push(err);
                    proof {
                        assert(error_states(errors@) =~= error_states(e1).push(error_state(err)));
                        assert(error_states(errors@) =~= base + after.errors);
                    }
                },
                Ok(bind) => {
                    let first: usize = find_bind(&binds, bind.key, Ghost(before.binds));
                    if first < binds.len() {
                        errors.push(DecodeError::FirstBind(places[first]));
                        errors.push(DecodeError::DuplicateBind(i));
                        proof {
                            assert(error_states(errors@) =~= error_states(e1).push(
                                ErrorState::Other(DecodeError::FirstBind(places@[first as int])),
                            ).push(ErrorState::Other(DecodeError::DuplicateBind(i))));
                            assert(error_states(errors@) =~= base + after.errors);
                        }
                    } else {
                        binds.push(bind);
                        places.push(i);
                        proof {
                            assert(error_states(errors@) =~= base + after.errors);
                        }
                    }
                },
            }
            i += 1;
        }
        proof {
            section_keys_are_unique(node.children@, all, n as int);
            let states = binds_of(node.children@, all, n as int).binds;
            assert forall|a: int, b: int| 0 <= a < b < binds@.len() implies (
            #[trigger] binds@[a]).key != (#[trigger] binds@[b]).key by {
                assert(binds@[a].is(states[a]));
                assert(binds@[b].is(states[b]));
            }
        }
        Binds(binds)
    }
}

/// Whether one of the binds is for this key.
pub open spec fn binds_key(binds: Seq<Bind>, key: Key) -> bool {
    exists|i: int| 0 <= i < binds.len() && (#[trigger] binds[i]).key == key
}

/// The binds that none of the new ones takes the key of.
pub open spec fn kept_binds(binds: Seq<Bind>, new: Seq<Bind>) -> Seq<Bind>
    decreases binds.len(),
{
    if binds.len() == 0 {
        seq![]
    } else {
        let rest = kept_binds(binds.drop_last(), new);
        if binds_key(new, binds.last().key) {
            rest
        } else {
            rest.push(binds.last())
        }
    }
}

fn has_key(binds: &Vec<Bind>, key: Key) -> (r: bool)
    ensures
        r == binds_key(binds@, key),
{
    let mut i: usize = 0;
    while i < binds.len()
        invariant
            i <= binds@.len(),
            forall|j: int| 0 <= j < i ==> (#[trigger] binds@[j]).key != key,
        decreases binds@.len() - i,
    {
        if binds[i].key == key {
            assert(binds@[i as int].key == key);
            return true;
        }
        i += 1;
    }
    false
}

impl Binds {
    /// Adds binds, which replace those that are there for the same keys.
    pub fn replace_with(&mut self, new: Binds)
        ensures
            final(self).0@ == kept_binds(old(self).0@, new.0@) + new.0@,
    {
        let ghost all = self.0@;
        let ghost added = new.0@;
        let mut i: usize = 0;
        let ghost mut seen: int = 0;
        assert(all.take(0) =~= seq![]);
        assert(self.0@.take(0) =~= seq![]);
        assert(self.0@.skip(0) =~= all.skip(0));
        while i < self.0.len()
            invariant
                added == new.0@,
                i <= self.0@.len(),
                0 <= seen <= all.len(),
                self.0@.take(i as int) == kept_binds(all.take(seen), added),
                self.0@.skip(i as int) == all.skip(seen),
            decreases self.0@.len() - i,
        {
            proof {
                assert(self.0@.skip(i as int).len() == all.skip(seen).len());
                assert(self.0@[i as int] == self.0@.skip(i as int)[0]);
                assert(all[seen] == all.skip(seen)[0]);
                assert(all.take(seen + 1).drop_last() =~= all.take(seen));
            }
            let ghost now = self.0@;
            if has_key(&new.0, self.0[i].key) {
                self.0.remove(i);
                proof {
                    assert(self.0@.take(i as int) =~= now.take(i as int));
                    assert(self.0@.skip(i as int) =~= now.skip(i as int).skip(1));
                    assert(all.skip(seen).skip(1) =~= all.skip(seen + 1));
                }
            } else {
                i += 1;
                proof {
                    assert(now.take(i as int) =~= now.take(i - 1).push(now[i - 1]));
                    assert(now.skip(i as int) =~= now.skip(i - 1).skip(1));
                    assert(all.skip(seen).skip(1) =~= all.skip(seen + 1));
                }
            }
            proof {
                seen = seen + 1;
            }
        }
        proof {
            assert(self.0@.skip(i as int).len() == 0);
            assert(seen == all.len());
            assert(all.take(seen) =~= all);
            assert(self.0@.take(i as int) =~= self.0@);
        }
        let mut new = new;
        self.0.append(&mut new.0);
    }
}

proof fn lemma_kept_binds(binds: Seq<Bind>, new: Seq<Bind>)
    ensures
        forall|i: int|
            0 <= i < kept_binds(binds, new).len() ==> {
                &&& binds.contains(#[trigger] kept_binds(binds, new)[i])
                &&& !binds_key(new, kept_binds(binds, new)[i].key)
            },
        forall|i: int|
            0 <= i < binds.len() && !binds_key(new, (#[trigger] binds[i]).key) ==> kept_binds(
                binds,
                new,
            ).contains(binds[i]),
        keys_are_unique(binds) ==> keys_are_unique(kept_binds(binds, new)),
    decreases binds.len(),
{
    if binds.len() > 0 {
        let front = binds.drop_last();
        lemma_kept_binds(front, new);
        let rest = kept_binds(front, new);
        let kept = kept_binds(binds, new);
        assert forall|i: int| 0 <= i < kept.len() implies binds.contains(#[trigger] kept[i])
            && !binds_key(new, kept[i].key) by {
            if i < rest.len() {
                assert(front.contains(rest[i]));
                let j = choose|j: int| 0 <= j < front.len() && front[j] == rest[i];
                assert(binds[j] == rest[i]);
            } else {
                assert(binds[binds.len() - 1] == kept[i]);
            }
        }
        assert forall|i: int|
            0 <= i < binds.len() && !binds_key(new, (#[trigger] binds[i]).key) implies kept.contains(
            binds[i],
        ) by {
            if i < front.len() {
                assert(front[i] == binds[i]);
                let j = choose|j: int| 0 <= j < rest.len() && rest[j] == binds[i];
                assert(kept[j] == binds[i]);
            } else {
                assert(kept[kept.len() - 1] == binds[i]);
            }
        }
        if keys_are_unique(binds) {
            assert forall|i: int, j: int| 0 <= i < j < front.len() implies (
            #[trigger] front[i]).key != (#[trigger] front[j]).key by {
                assert(binds[i].key != binds[j].key);
            }
            assert forall|i: int, j: int| 0 <= i < j < kept.len() implies (
            #[trigger] kept[i]).key != (#[trigger] kept[j]).key by {
                if j == rest.len() {
                    assert(front.contains(rest[i]));
                    let k = choose|k: int| 0 <= k < front.len() && front[k] == rest[i];
                    assert(binds[k].key != binds[binds.len() - 1].key);
                }
            }
        }
    }
}

/// Later binds win: each new bind is there, a bind that was there before is
/// still there exactly if no new one takes its key, and no key is bound twice.
pub proof fn later_binds_win(before: Seq<Bind>, new: Seq<Bind>)
    requires
        keys_are_unique(before),
        keys_are_unique(new),
    ensures
        ({
            let after = kept_binds(before, new) + new;
            &&& keys_are_unique(after)
            &&& forall|i: int| 0 <= i < new.len() ==> after.contains(#[trigger] new[i])
            &&& forall|i: int|
                0 <= i < before.len() && !binds_key(new, (#[trigger] before[i]).key)
                    ==> after.contains(before[i])
            &&& forall|i: int|
                0 <= i < after.len() && !new.contains(#[trigger] after[i]) ==> before.contains(
                    after[i],
                ) && !binds_key(new, after[i].key)
        }),
{
    lemma_kept_binds(before, new);
    let kept = kept_binds(before, new);
    let after = kept + new;
    assert forall|i: int| 0 <= i < new.len() implies after.contains(#[trigger] new[i]) by {
        assert(after[kept.len() + i] == new[i]);
    }
    assert forall|i: int|
        0 <= i < before.len() && !binds_key(new, (#[trigger] before[i]).key) implies after.contains(
        before[i],
    ) by {
        let j = choose|j: int| 0 <= j < kept.len() && kept[j] == before[i];
        assert(after[j] == before[i]);
    }
    assert forall|i: int, j: int| 0 <= i < j < after.len() implies (#[trigger] after[i]).key != (
    #[trigger] after[j]).key by {
        if i < kept.len() && j >= kept.len() {
            assert(after[i] == kept[i]);
            assert(!binds_key(new, kept[i].key));
            assert(after[j] == new[j - kept.len()]);
        } else if i >= kept.len() {
            assert(after[i] == new[i - kept.len()]);
            assert(after[j] == new[j - kept.len()]);
        } else {
            assert(after[i] == kept[i]);
            assert(after[j] == kept[j]);
        }
    }
    assert forall|i: int|
        0 <= i < after.len() && !new.contains(#[trigger] after[i]) implies before.contains(after[i])
        && !binds_key(new, after[i].key) by {
        if i < kept.len() {
            assert(after[i] == kept[i]);
        } else {
            assert(after[i] == new[i - kept.len()]);
        }
    }
}

/// What a switch of the machine sets off.
#[derive(Debug)]
pub struct SwitchAction {
    pub spawn: Vec<String>,
}

/// Actions for the switches of the machine.
#[derive(Debug)]
pub struct SwitchBinds {
    pub lid_open: Option<SwitchAction>,
    pub lid_close: Option<SwitchAction>,
    pub tablet_mode_on: Option<SwitchAction>,
    pub tablet_mode_off: Option<SwitchAction>,
}

impl Default for SwitchBinds {
    fn default() -> (r: Self)
        ensures
            r.lid_open is None,
            r.lid_close is None,
            r.tablet_mode_on is None,
            r.tablet_mode_off is None,
    {
        SwitchBinds { lid_open: None, lid_close: None, tablet_mode_on: None, tablet_mode_off: None }
    }
}

/// The command of an action.
pub open spec fn switch_command(action: Option<SwitchAction>) -> Option<Seq<String>> {
    match action {
        Some(a) => Some(a.spawn@),
        None => None,
    }
}

/// The command after a part that may set it.
pub open spec fn switch_after(before: Option<SwitchAction>, part: Option<SwitchAction>) -> Option<
    Seq<String>,
> {
    if part is Some {
        switch_command(part)
    } else {
        switch_command(before)
    }
}

fn merge_switch(action: &mut Option<SwitchAction>, part: &Option<SwitchAction>)
    ensures
        switch_command(*final(action)) == switch_after(*old(action), *part),
{
    if let Some(new) = part {
        *action = Some(SwitchAction { spawn: clone_strings(&new.spawn) });
    }
}

impl MergeWith<SwitchBinds> for SwitchBinds {
    open spec fn merges_to(&self, part: &SwitchBinds, after: &Self) -> bool {
        &&& switch_command(after.lid_open) == switch_after(self.lid_open, part.lid_open)
        &&& switch_command(after.lid_close) == switch_after(self.lid_close, part.lid_close)
        &&& switch_command(after.tablet_mode_on) == switch_after(
            self.tablet_mode_on,
            part.tablet_mode_on,
        )
        &&& switch_command(after.tablet_mode_off) == switch_after(
            self.tablet_mode_off,
            part.tablet_mode_off,
        )
    }

    fn merge_with(&mut self, part: &SwitchBinds) {
        merge_switch(&mut self.lid_open, &part.lid_open);
        merge_switch(&mut self.lid_close, &part.lid_close);
        merge_switch(&mut self.tablet_mode_on, &part.tablet_mode_on);
        merge_switch(&mut self.tablet_mode_off, &part.tablet_mode_off);
    }
}

} // verus!
