//! The push-to-talk key across all keyboards.
//!
//! Every keyboard has a reader of its own, and a supervisor rescans for
//! keyboards that sleep, re-pair or get plugged in later. A [`Listener`] is
//! what they share: which keyboards are open, and on which of them the hotkey
//! is held.

use vstd::prelude::*;

use crate::controller;
use crate::controller::Event;
use crate::labels;
use crate::labels::{hotkey_label, prefix_len};
use crate::session::Happening;
use crate::text::{chars_of, concat, same_text};

verus! {

/// The key code of the default hotkey, Right Alt.
pub const KEY_RIGHTALT: u16 = 100;

/// The key code of A.
pub const KEY_A: u16 = 30;

/// The key code of Z.
pub const KEY_Z: u16 = 44;

/// The codes from here on are buttons, not keys.
pub const FIRST_BUTTON: u16 = 0x100;

/// The supervisor rescans this often, in milliseconds.
pub const RESCAN_MS: u64 = 2_000;

/// A supervisor that was not heard of for longer has stopped, in
/// milliseconds.
pub const HEARTBEAT_STALE_MS: u64 = 20_000;

/// The code that the input crate knows for a key name, if any.
pub uninterp spec fn evdev_key_code(name: Seq<char>) -> Option<u16>;

/// The name that the input crate prints for a key code.
pub uninterp spec fn evdev_key_name(code: u16) -> Seq<char>;

/// Calls the `FromStr` of `evdev::KeyCode`, which looks the name up in the
/// crate's table of key names. Of the table, only the default hotkey's entry
/// is stated.
#[verifier::external_body]
fn evdev_parse(name: &str) -> (r: Option<u16>)
    ensures
        r == evdev_key_code(name@),
        name@ == "KEY_RIGHTALT"@ ==> r == Some(KEY_RIGHTALT),
{
    name.parse::<evdev::KeyCode>().ok().map(|k| k.code())
}

/// Calls the `Debug` of `evdev::KeyCode`, which prints the key's name in the
/// crate's table, or the code of a key that has none. Of the table, only the
/// default hotkey's entry is stated.
#[verifier::external_body]
fn evdev_name(code: u16) -> (r: String)
    ensures
        r@ == evdev_key_name(code),
        code == KEY_RIGHTALT ==> r@ == "KEY_RIGHTALT"@,
{
    format!("{:?}", evdev::KeyCode::new(code))
}

/// The key to listen for: the one found, or Right Alt.
pub open spec fn key_or_default(found: Option<u16>) -> u16 {
    match found {
        Some(code) => code,
        None => KEY_RIGHTALT,
    }
}

/// The key to listen for, given what the name stands for.
pub fn key_found(found: Option<u16>) -> (r: u16)
    ensures
        r == key_or_default(found),
{
    match found {
        Some(code) => code,
        None => KEY_RIGHTALT,
    }
}

/// The code of a key name; Right Alt if the name is unknown.
pub fn parse_key(name: &str) -> (r: u16)
    ensures
        r == key_or_default(evdev_key_code(name@)),
        name@ == "KEY_RIGHTALT"@ ==> r == KEY_RIGHTALT,
{
    key_found(evdev_parse(name))
}

/// What the readers and the supervisor share, as plain values.
#[verifier::ext_equal]
pub struct Watched {
    /// The key to listen for.
    pub key: u16,
    /// The open keyboards, and the keys that each has.
    pub open: Map<Seq<char>, Set<u16>>,
    /// The keyboards on which the hotkey is held.
    pub held: Set<Seq<char>>,
    /// What was last reported as wrong.
    pub warning: Option<Seq<char>>,
}

/// Names, each with the keys of a keyboard.
pub open spec fn open_views(open: Seq<(String, Vec<u16>)>) -> Seq<(Seq<char>, Set<u16>)> {
    open.map_values(|e: (String, Vec<u16>)| (e.0@, e.1@.to_set()))
}

/// Names of keyboards.
pub open spec fn name_views(names: Seq<String>) -> Seq<Seq<char>> {
    names.map_values(|n: String| n@)
}

/// Whether a name is among the entries.
pub open spec fn has_entry(entries: Seq<(Seq<char>, Set<u16>)>, name: Seq<char>) -> bool {
    exists|i: int| 0 <= i < entries.len() && (#[trigger] entries[i]).0 == name
}

/// The keys of the entry with a name.
pub open spec fn entry_keys(entries: Seq<(Seq<char>, Set<u16>)>, name: Seq<char>) -> Set<u16> {
    entries[choose|i: int| 0 <= i < entries.len() && (#[trigger] entries[i]).0 == name].1
}

/// The entries as a map.
pub open spec fn open_map(entries: Seq<(Seq<char>, Set<u16>)>) -> Map<Seq<char>, Set<u16>> {
    Map::new(|name: Seq<char>| has_entry(entries, name), |name: Seq<char>| entry_keys(entries, name))
}

/// No name occurs twice.
pub open spec fn entries_distinct(entries: Seq<(Seq<char>, Set<u16>)>) -> bool {
    forall|i: int, j: int|
        0 <= i < j < entries.len() ==> (#[trigger] entries[i]).0 != (#[trigger] entries[j]).0
}

/// The event that a change of the held keyboards is worth.
pub open spec fn released(before: Set<Seq<char>>, after: Set<Seq<char>>) -> Option<Happening> {
    if before != Set::<Seq<char>>::empty() && after == Set::<Seq<char>>::empty() {
        Some(Happening::HotkeyUp)
    } else {
        None
    }
}

/// The warning that no keyboard has the hotkey.
pub open spec fn no_such_key(key_name: Seq<char>) -> Seq<char> {
    "No connected keyboard has a "@ + labels::key_label(key_name)
        + " key. Pick another in Settings."@
}

/// Whether one of the keyboards has a key.
pub open spec fn some_has_key(open: Map<Seq<char>, Set<u16>>, key: u16) -> bool {
    exists|name: Seq<char>| #[trigger] open.dom().contains(name) && open[name].contains(key)
}

/// What is wrong after a scan, if anything.
pub open spec fn scan_warning(
    open: Map<Seq<char>, Set<u16>>,
    hotkey: u16,
    denied: bool,
) -> Option<Seq<char>> {
    if some_has_key(open, hotkey) {
        None
    } else if denied && open == Map::<Seq<char>, Set<u16>>::empty() {
        Some(
            "Can't read keyboards. Add yourself to the input group: sudo usermod -aG input $USER, then log out and in."@,
        )
    } else if open != Map::<Seq<char>, Set<u16>>::empty() {
        Some(no_such_key(evdev_key_name(hotkey)))
    } else {
        Some("No keyboard found."@)
    }
}

/// The keys of a device, if it is worth listening to.
pub open spec fn caps_of(keys: Option<Seq<u16>>, hotkey: u16) -> Option<Seq<u16>> {
    match keys {
        Some(k) => if (k.contains(KEY_A) && k.contains(KEY_Z)) || k.contains(hotkey) {
            Some(k)
        } else {
            None
        },
        None => None,
    }
}

/// The plain view of an optional list of keys.
pub open spec fn keys_view(keys: Option<Vec<u16>>) -> Option<Seq<u16>> {
    match keys {
        Some(k) => Some(k@),
        None => None,
    }
}

/// The plain view of an optional event.
pub open spec fn event_view(ev: Option<Event>) -> Option<Happening> {
    match ev {
        Some(e) => Some(e@),
        None => None,
    }
}

impl Watched {
    /// Nothing is open yet.
    pub open spec fn fresh(key: u16) -> Watched {
        Watched { key, open: Map::empty(), held: Set::empty(), warning: None }
    }

    /// A key event on a keyboard, for a reader that listens for `hotkey`.
    pub open spec fn key_event(
        self,
        device: Seq<char>,
        hotkey: u16,
        code: u16,
        value: i32,
    ) -> (Watched, Option<Happening>) {
        if code == hotkey {
            if value == 1 {
                (
                    Watched { held: self.held.insert(device), ..self },
                    if self.held == Set::<Seq<char>>::empty() {
                        Some(Happening::HotkeyDown)
                    } else {
                        None
                    },
                )
            } else if value == 0 {
                let held = self.held.remove(device);
                (Watched { held, ..self }, released(self.held, held))
            } else {
                (self, None)
            }
        } else if value == 1 && code < FIRST_BUTTON && self.held != Set::<Seq<char>>::empty() {
            (self, Some(Happening::OtherKey))
        } else {
            (self, None)
        }
    }

    /// A keyboard went away.
    pub open spec fn device_gone(self, device: Seq<char>) -> (Watched, Option<Happening>) {
        let held = self.held.remove(device);
        (
            Watched { open: self.open.remove(device), held, ..self },
            released(self.held, held),
        )
    }

    /// Another key is the hotkey from now on.
    pub open spec fn set_key(self, key: u16) -> (Watched, Option<Happening>) {
        (
            Watched { key, held: Set::empty(), ..self },
            released(self.held, Set::empty()),
        )
    }

    /// The end of a scan: what is wrong is reported if it changed.
    pub open spec fn scanned(self, hotkey: u16, denied: bool) -> (Watched, Option<Happening>) {
        let warning = scan_warning(self.open, hotkey, denied);
        (
            Watched { warning, ..self },
            if warning == self.warning {
                None
            } else {
                match warning {
                    Some(msg) => Some(Happening::KeyboardsMissing(msg)),
                    None => Some(Happening::KeyboardsOk),
                }
            },
        )
    }
}

/// What opening a device brought.
pub enum Found {
    /// The keys that it has, if it has keys.
    Keys(Option<Vec<u16>>),
    /// The system refused access.
    Denied,
    /// It could not be opened.
    Failed,
}

/// A scan of the devices under way.
pub struct Scan {
    /// The hotkey when the scan began.
    pub hotkey: u16,
    /// Whether access to a device was refused.
    pub denied: bool,
}

/// Adds a name, or nothing if it is there.
fn add_name(names: &mut Vec<String>, name: &str)
    requires
        name_views(old(names)@).no_duplicates(),
    ensures
        name_views(final(names)@).no_duplicates(),
        name_views(final(names)@).to_set() == name_views(old(names)@).to_set().insert(name@),
{
    let ghost before = name_views(names@);
    let mut i: usize = 0;
    while i < names.len()
        invariant
            i <= names@.len(),
            names@ == old(names)@,
            before == name_views(names@),
            before.no_duplicates(),
            forall|k: int| 0 <= k < i ==> #[trigger] before[k] != name@,
        decreases names@.len() - i,
    {
        if same_text(names[i].as_str(), name) {
            assert(before[i as int] == name@);
            return ;
        }
        i = i + 1;
    }
    names.push(name.to_owned());
    let ghost after = name_views(names@);
    assert(after =~= before.push(name@));
    assert(after.to_set() =~= before.to_set().insert(name@)) by {
        assert forall|n: Seq<char>| after.contains(n) == (before.contains(n) || n == name@) by {
            if before.contains(n) {
                let k = before.index_of(n);
                assert(after[k] == n);
            }
            if n == name@ {
                assert(after[before.len() as int] == n);
            }
        }
    }
}

/// Removes a name.
fn remove_name(names: &mut Vec<String>, name: &str)
    requires
        name_views(old(names)@).no_duplicates(),
    ensures
        name_views(final(names)@).no_duplicates(),
        name_views(final(names)@).to_set() == name_views(old(names)@).to_set().remove(name@),
{
    let ghost before = name_views(names@);
    let mut i: usize = 0;
    while i < names.len()
        invariant
            i <= names@.len(),
            names@ == old(names)@,
            before == name_views(names@),
            before.no_duplicates(),
            forall|k: int| 0 <= k < i ==> #[trigger] before[k] != name@,
        decreases names@.len() - i,
    {
        if same_text(names[i].as_str(), name) {
            assert(before[i as int] == name@);
            names.remove(i);
            let ghost after = name_views(names@);
            assert(after =~= before.remove(i as int));
            assert(after.to_set() =~= before.to_set().remove(name@)) by {
                assert forall|n: Seq<char>|
                    after.contains(n) == (before.contains(n) && n != name@) by {
                    if before.contains(n) && n != name@ {
                        let k = before.index_of(n);
                        if k < i {
                            assert(after[k] == n);
                        } else {
                            assert(after[k - 1] == n);
                        }
                    }
                }
            }
            return ;
        }
        i = i + 1;
    }
}

/// The entry at an index is what the map holds for its name.
proof fn lemma_open_map(entries: Seq<(Seq<char>, Set<u16>)>, i: int)
    requires
        entries_distinct(entries),
        0 <= i < entries.len(),
    ensures
        open_map(entries).dom().contains(entries[i].0),
        open_map(entries)[entries[i].0] == entries[i].1,
{
}

/// A new entry at the end.
proof fn lemma_open_map_push(entries: Seq<(Seq<char>, Set<u16>)>, name: Seq<char>, keys: Set<u16>)
    requires
        entries_distinct(entries),
        !has_entry(entries, name),
    ensures
        entries_distinct(entries.push((name, keys))),
        open_map(entries.push((name, keys))) == open_map(entries).insert(name, keys),
{
    let after = entries.push((name, keys));
    assert forall|n: Seq<char>|
        #[trigger] open_map(after).dom().contains(n) == open_map(entries).insert(
            name,
            keys,
        ).dom().contains(n) by {
        if has_entry(entries, n) {
            let k = choose|k: int| 0 <= k < entries.len() && (#[trigger] entries[k]).0 == n;
            assert(after[k].0 == n);
        }
        if n == name {
            assert(after[entries.len() as int].0 == n);
        }
    }
    assert forall|n: Seq<char>| #[trigger] open_map(after).dom().contains(n) implies open_map(
        after,
    )[n] == open_map(entries).insert(name, keys)[n] by {
        let k = choose|k: int| 0 <= k < after.len() && (#[trigger] after[k]).0 == n;
        lemma_open_map(after, k);
        if k < entries.len() {
            lemma_open_map(entries, k);
        }
    }
}

/// An entry less.
proof fn lemma_open_map_remove(entries: Seq<(Seq<char>, Set<u16>)>, i: int)
    requires
        entries_distinct(entries),
        0 <= i < entries.len(),
    ensures
        entries_distinct(entries.remove(i)),
        open_map(entries.remove(i)) == open_map(entries).remove(entries[i].0),
        !has_entry(entries.remove(i), entries[i].0),
{
    let after = entries.remove(i);
    let name = entries[i].0;
    assert forall|j: int| 0 <= j < after.len() implies #[trigger] after[j] == entries[if j < i {
        j
    } else {
        j + 1
    }] by {}
    assert forall|n: Seq<char>|
        #[trigger] open_map(after).dom().contains(n) == open_map(entries).remove(
            name,
        ).dom().contains(n) by {
        if has_entry(entries, n) && n != name {
            let k = choose|k: int| 0 <= k < entries.len() && (#[trigger] entries[k]).0 == n;
            if k < i {
                assert(after[k].0 == n);
            } else {
                assert(after[k - 1].0 == n);
            }
        }
        if has_entry(after, n) {
            let k = choose|k: int| 0 <= k < after.len() && (#[trigger] after[k]).0 == n;
            assert(after[k] == entries[if k < i {
                k
            } else {
                k + 1
            }]);
        }
    }
    assert forall|n: Seq<char>| #[trigger] open_map(after).dom().contains(n) implies open_map(
        after,
    )[n] == open_map(entries).remove(name)[n] by {
        let k = choose|k: int| 0 <= k < after.len() && (#[trigger] after[k]).0 == n;
        lemma_open_map(after, k);
        let k0 = if k < i {
            k
        } else {
            k + 1
        };
        lemma_open_map(entries, k0);
    }
}

/// Removes the entry of a keyboard.
fn remove_entry(open: &mut Vec<(String, Vec<u16>)>, name: &str)
    requires
        entries_distinct(open_views(old(open)@)),
    ensures
        entries_distinct(open_views(final(open)@)),
        open_map(open_views(final(open)@)) == open_map(open_views(old(open)@)).remove(name@),
        !has_entry(open_views(final(open)@), name@),
{
    let ghost before = open_views(open@);
    let mut i: usize = 0;
    while i < open.len()
        invariant
            i <= open@.len(),
            open@ == old(open)@,
            before == open_views(open@),
            entries_distinct(before),
            forall|k: int| 0 <= k < i ==> (#[trigger] before[k]).0 != name@,
        decreases open@.len() - i,
    {
        if same_text(open[i].0.as_str(), name) {
            open.remove(i);
            proof {
                lemma_open_map_remove(before, i as int);
                assert(open_views(open@) =~= before.remove(i as int));
            }
            return ;
        }
        i = i + 1;
    }
}

/// Whether a key is among the keys.
fn has_key(keys: &Vec<u16>, key: u16) -> (r: bool)
    ensures
        r == keys@.contains(key),
{
    let mut i: usize = 0;
    while i < keys.len()
        invariant
            i <= keys@.len(),
            forall|k: int| 0 <= k < i ==> keys@[k] != key,
        decreases keys@.len() - i,
    {
        if keys[i] == key {
            return true;
        }
        i = i + 1;
    }
    false
}

/// Keys a device supports, if it is worth listening to: a typing keyboard
/// (for "another key pressed" cancelling) or anything with the hotkey, such
/// as a macropad or foot pedal.
pub fn keyboard_caps(keys: Option<Vec<u16>>, hotkey: u16) -> (r: Option<Vec<u16>>)
    ensures
        keys_view(r) == caps_of(keys_view(keys), hotkey),
{
    match keys {
        Some(k) => {
            let typing = has_key(&k, KEY_A) && has_key(&k, KEY_Z);
            if typing || has_key(&k, hotkey) {
                Some(k)
            } else {
                None
            }
        },
        None => None,
    }
}

/// The warning that no keyboard has the key with this name.
pub fn missing_key_warning(key_name: &str) -> (r: String)
    ensures
        r@ == no_such_key(key_name@),
{
    let label = hotkey_label(key_name);
    let start = concat("No connected keyboard has a ", label.as_str());
    concat(start.as_str(), " key. Pick another in Settings.")
}

/// Whether two optional texts are the same.
fn same_optional(a: &Option<String>, b: &Option<String>) -> (r: bool)
    ensures
        r == (controller::opt_text(*a) == controller::opt_text(*b)),
{
    match a {
        Some(x) => match b {
            Some(y) => same_text(x.as_str(), y.as_str()),
            None => false,
        },
        None => b.is_none(),
    }
}

/// The shared state of the key listener.
pub struct Listener {
    key: u16,
    open: Vec<(String, Vec<u16>)>,
    held: Vec<String>,
    warning: Option<String>,
}

impl View for Listener {
    type V = Watched;

    closed spec fn view(&self) -> Watched {
        Watched {
            key: self.key,
            open: open_map(open_views(self.open@)),
            held: name_views(self.held@).to_set(),
            warning: controller::opt_text(self.warning),
        }
    }
}

impl Listener {
    #[verifier::type_invariant]
    spec fn well_formed(&self) -> bool {
        &&& entries_distinct(open_views(self.open@))
        &&& name_views(self.held@).no_duplicates()
    }

    /// A listener for a key. No keyboard is open yet.
    pub fn new(key: u16) -> (r: Listener)
        ensures
            r@ == Watched::fresh(key),
    {
        let r = Listener { key, open: Vec::new(), held: Vec::new(), warning: None };
        r
    }

    /// The key to listen for.
    pub fn hotkey(&self) -> (r: u16)
        ensures
            r == self@.key,
    {
        self.key
    }

    /// Whether the hotkey is held on no keyboard.
    fn none_held(&self) -> (r: bool)
        ensures
            r == (self@.held == Set::<Seq<char>>::empty()),
    {
        let ghost names = name_views(self.held@);
        if self.held.len() == 0 {
            assert(names.to_set() =~= Set::<Seq<char>>::empty());
            true
        } else {
            assert(names.to_set().contains(names[0]));
            false
        }
    }

    fn unhold(&mut self, device: &str)
        ensures
            final(self)@ == (Watched { held: old(self)@.held.remove(device@), ..old(self)@ }),
    {
        proof {
            use_type_invariant(&*self);
        }
        let mut held: Vec<String> = Vec::new();
        std::mem::swap(&mut held, &mut self.held);
        remove_name(&mut held, device);
        self.held = held;
    }

    /// Makes another key the hotkey. The old key's release will never match
    /// the new key, so anything held is forgotten and released now rather
    /// than jamming.
    pub fn set_key(&mut self, key: u16) -> (r: Option<Event>)
        ensures
            (final(self)@, event_view(r)) == old(self)@.set_key(key),
    {
        let idle = self.none_held();
        proof {
            use_type_invariant(&*self);
        }
        self.key = key;
        self.held = Vec::new();
        if idle {
            None
        } else {
            Some(Event::HotkeyUp)
        }
    }

    /// Takes a key event of a keyboard. `hotkey` is the key that its reader
    /// listens for; of `value`, 1 means pressed, 0 released, and anything
    /// else repeated.
    pub fn key_event(&mut self, device: &str, hotkey: u16, code: u16, value: i32) -> (r: Option<
        Event,
    >)
        ensures
            (final(self)@, event_view(r)) == old(self)@.key_event(device@, hotkey, code, value),
    {
        let idle = self.none_held();
        if code == hotkey {
            if value == 1 {
                proof {
                    use_type_invariant(&*self);
                }
                let mut held: Vec<String> = Vec::new();
                std::mem::swap(&mut held, &mut self.held);
                add_name(&mut held, device);
                self.held = held;
                if idle {
                    Some(Event::HotkeyDown)
                } else {
                    None
                }
            } else if value == 0 {
                self.unhold(device);
                if !idle && self.none_held() {
                    Some(Event::HotkeyUp)
                } else {
                    None
                }
            } else {
                None
            }
        } else if value == 1 && code < FIRST_BUTTON && !idle {
            // Another key pressed while held: the user wants Alt as a modifier.
            Some(Event::OtherKey)
        } else {
            None
        }
    }

    /// A keyboard went away. The hotkey is released if it was held there, so
    /// that a recording never gets stuck.
    pub fn device_gone(&mut self, device: &str) -> (r: Option<Event>)
        ensures
            (final(self)@, event_view(r)) == old(self)@.device_gone(device@),
    {
        let idle = self.none_held();
        proof {
            use_type_invariant(&*self);
        }
        let mut open: Vec<(String, Vec<u16>)> = Vec::new();
        std::mem::swap(&mut open, &mut self.open);
        remove_entry(&mut open, device);
        self.open = open;
        self.unhold(device);
        if !idle && self.none_held() {
            Some(Event::HotkeyUp)
        } else {
            None
        }
    }

    /// Whether a device file is worth opening: an event device that has no
    /// reader yet.
    pub fn wants(&self, name: &str) -> (r: bool)
        ensures
            r == (labels::starts_with(name@, "event"@) && !self@.open.dom().contains(name@)),
    {
        let c = chars_of(name);
        if prefix_len(&c, "event").is_none() {
            return false;
        }
        let ghost entries = open_views(self.open@);
        let mut i: usize = 0;
        while i < self.open.len()
            invariant
                i <= self.open@.len(),
                entries == open_views(self.open@),
                self@.open == open_map(entries),
                forall|k: int| 0 <= k < i ==> (#[trigger] entries[k]).0 != name@,
            decreases self.open@.len() - i,
        {
            if same_text(self.open[i].0.as_str(), name) {
                assert(entries[i as int].0 == name@);
                return false;
            }
            i = i + 1;
        }
        true
    }

    /// Begins a scan of the devices.
    pub fn begin_scan(&self) -> (r: Scan)
        ensures
            r.hotkey == self@.key,
            !r.denied,
    {
        Scan { hotkey: self.key, denied: false }
    }

    /// Takes what opening a device brought, and says whether to start a
    /// reader for it.
    pub fn opened(&mut self, scan: &mut Scan, name: &str, found: Found) -> (r: bool)
        ensures
            final(scan).hotkey == old(scan).hotkey,
            final(scan).denied == (old(scan).denied || found is Denied),
            match found {
                Found::Keys(keys) => match caps_of(keys_view(keys), old(scan).hotkey) {
                    Some(caps) => r && final(self)@ == (Watched {
                        open: old(self)@.open.insert(name@, caps.to_set()),
                        ..old(self)@
                    }),
                    None => !r && final(self)@ == old(self)@,
                },
                _ => !r && final(self)@ == old(self)@,
            },
    {
        match found {
            Found::Keys(keys) => match keyboard_caps(keys, scan.hotkey) {
                Some(caps) => {
                    proof {
                        use_type_invariant(&*self);
                    }
                    let mut open: Vec<(String, Vec<u16>)> = Vec::new();
                    std::mem::swap(&mut open, &mut self.open);
                    remove_entry(&mut open, name);
                    let ghost entries = open_views(open@);
                    let ghost keys = caps@.to_set();
                    open.push((name.to_owned(), caps));
                    proof {
                        lemma_open_map_push(entries, name@, keys);
                        assert(open_views(open@) =~= entries.push((name@, keys)));
                    }
                    self.open = open;
                    true
                },
                None => false,
            },
            Found::Denied => {
                scan.denied = true;
                false
            },
            Found::Failed => false,
        }
    }

    /// Whether one of the open keyboards has a key.
    fn some_has(&self, key: u16) -> (r: bool)
        ensures
            r == some_has_key(self@.open, key),
    {
        proof {
            use_type_invariant(self);
        }
        let ghost entries = open_views(self.open@);
        let mut i: usize = 0;
        while i < self.open.len()
            invariant
                i <= self.open@.len(),
                entries == open_views(self.open@),
                entries_distinct(entries),
                self@.open == open_map(entries),
                forall|k: int| 0 <= k < i ==> !(#[trigger] entries[k]).1.contains(key),
            decreases self.open@.len() - i,
        {
            if has_key(&self.open[i].1, key) {
                proof {
                    lemma_open_map(entries, i as int);
                }
                return true;
            }
            i = i + 1;
        }
        proof {
            assert forall|name: Seq<char>| #[trigger]
                self@.open.dom().contains(name) implies !self@.open[name].contains(key) by {
                let k = choose|k: int| 0 <= k < entries.len() && (#[trigger] entries[k]).0 == name;
                lemma_open_map(entries, k);
            }
        }
        false
    }

    /// Whether no keyboard is open.
    fn none_open(&self) -> (r: bool)
        ensures
            r == (self@.open == Map::<Seq<char>, Set<u16>>::empty()),
    {
        let ghost entries = open_views(self.open@);
        if self.open.len() == 0 {
            assert(open_map(entries) =~= Map::<Seq<char>, Set<u16>>::empty());
            true
        } else {
            assert(open_map(entries).dom().contains(entries[0].0));
            false
        }
    }

    /// Ends a scan of the devices, and reports what is wrong if it changed.
    pub fn end_scan(&mut self, scan: &Scan) -> (r: Option<Event>)
        ensures
            (final(self)@, event_view(r)) == old(self)@.scanned(scan.hotkey, scan.denied),
    {
        let warning: Option<String> = if self.some_has(scan.hotkey) {
            None
        } else if scan.denied && self.none_open() {
            Some(
                "Can't read keyboards. Add yourself to the input group: sudo usermod -aG input $USER, then log out and in.".to_owned(),
            )
        } else if !self.none_open() {
            Some(missing_key_warning(evdev_name(scan.hotkey).as_str()))
        } else {
            Some("No keyboard found.".to_owned())
        };
        if same_optional(&warning, &self.warning) {
            return None;
        }
        proof {
            use_type_invariant(&*self);
        }
        let event = match &warning {
            Some(msg) => Event::KeyboardsMissing(msg.clone()),
            None => Event::KeyboardsOk,
        };
        self.warning = warning;
        Some(event)
    }
}

/// The heartbeat to store at a time, in milliseconds: one more than the time,
/// so that a beat at the start is distinguishable from none.
pub fn beat(now: u64) -> (r: u64)
    requires
        now < u64::MAX,
    ensures
        r == now + 1,
{
    now + 1
}

/// The time since the last beat, if there was one.
pub open spec fn age_of(heartbeat: u64, now: u64) -> Option<u64> {
    if heartbeat == 0 {
        None
    } else if now >= heartbeat - 1 {
        Some((now - (heartbeat - 1)) as u64)
    } else {
        Some(0)
    }
}

/// Time in milliseconds since the supervisor last looped, or None before its
/// first loop.
pub fn heartbeat_age(heartbeat: u64, now: u64) -> (r: Option<u64>)
    ensures
        r == age_of(heartbeat, now),
{
    if heartbeat == 0 {
        None
    } else {
        Some(now.saturating_sub(heartbeat - 1))
    }
}

/// Whether the supervisor has stopped.
pub open spec fn has_stopped(heartbeat: u64, now: u64) -> bool {
    match age_of(heartbeat, now) {
        Some(age) => age > HEARTBEAT_STALE_MS,
        None => false,
    }
}

/// Whether the supervisor has stopped responding.
pub fn supervisor_stopped(heartbeat: u64, now: u64) -> (r: bool)
    ensures
        r == has_stopped(heartbeat, now),
{
    match heartbeat_age(heartbeat, now) {
        Some(age) => age > HEARTBEAT_STALE_MS,
        None => false,
    }
}

/// The hotkey goes down when it is held on the first keyboard and up when it
/// is held on none, and at no other time.
pub proof fn hotkey_follows_the_held_keyboards(
    w: Watched,
    device: Seq<char>,
    hotkey: u16,
    code: u16,
    value: i32,
)
    ensures
        ({
            let (next, ev) = w.key_event(device, hotkey, code, value);
            let none = Set::<Seq<char>>::empty();
            &&& ev == Some(Happening::HotkeyDown) <==> w.held == none && next.held != none
            &&& ev == Some(Happening::HotkeyUp) <==> w.held != none && next.held == none
        }),
        ({
            let (next, ev) = w.device_gone(device);
            let none = Set::<Seq<char>>::empty();
            &&& ev != Some(Happening::HotkeyDown)
            &&& ev == Some(Happening::HotkeyUp) <==> w.held != none && next.held == none
        }),
        ({
            let (next, ev) = w.set_key(code);
            let none = Set::<Seq<char>>::empty();
            &&& ev != Some(Happening::HotkeyDown)
            &&& ev == Some(Happening::HotkeyUp) <==> w.held != none && next.held == none
        }),
{
    assert(w.held.insert(device).contains(device));
    assert(Set::<Seq<char>>::empty().remove(device) =~= Set::<Seq<char>>::empty());
}

/// The hotkey is held on open keyboards only, whatever happens to the open
/// keyboards.
pub proof fn held_keyboards_are_open(
    w: Watched,
    device: Seq<char>,
    hotkey: u16,
    code: u16,
    value: i32,
)
    requires
        w.held.subset_of(w.open.dom()),
    ensures
        w.open.dom().contains(device) ==> ({
            let next = w.key_event(device, hotkey, code, value).0;
            next.held.subset_of(next.open.dom())
        }),
        w.device_gone(device).0.held.subset_of(w.device_gone(device).0.open.dom()),
        w.set_key(code).0.held.subset_of(w.set_key(code).0.open.dom()),
        Watched::fresh(hotkey).held.subset_of(Watched::fresh(hotkey).open.dom()),
{
}

/// A keyboard that went away holds the hotkey no more; once all are gone,
/// nothing does.
pub proof fn vanished_keyboards_release_the_hotkey(w: Watched, device: Seq<char>)
    requires
        w.held.subset_of(w.open.dom()),
    ensures
        ({
            let (next, ev) = w.device_gone(device);
            &&& !next.held.contains(device)
            &&& !next.open.dom().contains(device)
            &&& next.open == Map::<Seq<char>, Set<u16>>::empty() ==> next.held == Set::<
                Seq<char>,
            >::empty()
            &&& w.held == set![device] ==> ev == Some(Happening::HotkeyUp)
        }),
{
    let next = w.device_gone(device).0;
    let none = Set::<Seq<char>>::empty();
    if next.open == Map::<Seq<char>, Set<u16>>::empty() {
        assert forall|d: Seq<char>| !next.held.contains(d) by {
            if next.held.contains(d) {
                assert(w.held.contains(d) && d != device);
                assert(w.open.dom().contains(d));
                assert(next.open.dom().contains(d));
            }
        }
        assert(next.held =~= none);
    }
    if w.held == set![device] {
        assert(w.held.contains(device));
        assert(w.held != none);
        assert(next.held =~= none);
    }
}

/// After a change of the hotkey nothing is held, so the next press of the new
/// key counts.
pub proof fn new_hotkey_is_never_jammed(w: Watched, key: u16, device: Seq<char>)
    ensures
        w.set_key(key).0.key_event(device, key, key, 1).1 == Some(Happening::HotkeyDown),
{
}

/// Repeated events of the hotkey, and buttons, mean nothing.
pub proof fn repeats_and_buttons_are_ignored(
    w: Watched,
    device: Seq<char>,
    hotkey: u16,
    code: u16,
    value: i32,
)
    requires
        (code == hotkey && value != 0 && value != 1) || (code != hotkey && code >= FIRST_BUTTON),
    ensures
        w.key_event(device, hotkey, code, value) == (w, None::<Happening>),
{
}

/// A problem is reported once, not with every scan.
pub proof fn problems_are_reported_once(w: Watched, hotkey: u16, denied: bool)
    ensures
        w.scanned(hotkey, denied).0.scanned(hotkey, denied).1 is None,
{
}

/// A keyboard with the hotkey clears every warning, and without one there
/// always is a warning.
pub proof fn missing_hotkey_is_reported(open: Map<Seq<char>, Set<u16>>, hotkey: u16, denied: bool)
    ensures
        scan_warning(open, hotkey, denied) is None <==> some_has_key(open, hotkey),
{
}

/// A beat is heard at once; the supervisor counts as stopped from the moment
/// that the beat is too old, and never before the first beat.
pub proof fn heartbeat_ages(at: u64, now: u64)
    requires
        at < u64::MAX,
        at <= now,
    ensures
        age_of((at + 1) as u64, now) == Some((now - at) as u64),
        has_stopped((at + 1) as u64, now) <==> now - at > HEARTBEAT_STALE_MS,
        !has_stopped(0, now),
{
}

/// Another key matters exactly while the hotkey is held on some keyboard,
/// whichever keyboard it is on itself: a press of any key that is neither the
/// hotkey nor a button is then reported, and nothing else is reported so.
pub proof fn other_keys_are_reported_while_the_hotkey_is_held(
    w: Watched,
    device: Seq<char>,
    hotkey: u16,
    code: u16,
    value: i32,
)
    ensures
        w.key_event(device, hotkey, code, value).1 == Some(Happening::OtherKey) <==> code != hotkey
            && value == 1 && code < 256 && (exists|d: Seq<char>| #[trigger] w.held.contains(d)),
{
    if w.held == Set::<Seq<char>>::empty() {
        assert(forall|d: Seq<char>| !#[trigger] w.held.contains(d));
    } else {
        assert(exists|d: Seq<char>| #[trigger] w.held.contains(d)) by {
            if forall|d: Seq<char>| !#[trigger] w.held.contains(d) {
                assert(w.held =~= Set::<Seq<char>>::empty());
            }
        }
    }
}

/// The hotkey is held on exactly those keyboards on which its last press was
/// not followed by a release. Every other key, and every other keyboard,
/// leaves that alone, and a key event changes nothing else.
pub proof fn held_keyboards_follow_the_hotkey(
    w: Watched,
    device: Seq<char>,
    hotkey: u16,
    code: u16,
    value: i32,
    d: Seq<char>,
)
    ensures
        ({
            let next = w.key_event(device, hotkey, code, value).0;
            &&& d == device && code == hotkey && value == 1 ==> next.held.contains(d)
            &&& d == device && code == hotkey && value == 0 ==> !next.held.contains(d)
            &&& d != device || code != hotkey || (value != 0 && value != 1) ==> (
            next.held.contains(d) <==> w.held.contains(d))
            &&& next.key == w.key
            &&& next.open == w.open
            &&& next.warning == w.warning
        }),
{
}

/// A key event is worth at most one of three reports.
pub proof fn key_events_report_keys(
    w: Watched,
    device: Seq<char>,
    hotkey: u16,
    code: u16,
    value: i32,
)
    ensures
        w.key_event(device, hotkey, code, value).1 matches Some(ev) ==> ev is HotkeyDown || ev
            is HotkeyUp || ev is OtherKey,
        w.device_gone(device).1 matches Some(ev) ==> ev is HotkeyUp,
        w.set_key(code).1 matches Some(ev) ==> ev is HotkeyUp,
{
}

/// A keyboard that goes away takes nothing with it but itself: the others stay
/// open, with their keys, and held as they were.
pub proof fn other_keyboards_stay(w: Watched, device: Seq<char>, other: Seq<char>)
    requires
        other != device,
    ensures
        ({
            let next = w.device_gone(device).0;
            &&& next.held.contains(other) <==> w.held.contains(other)
            &&& next.open.dom().contains(other) <==> w.open.dom().contains(other)
            &&& w.open.dom().contains(other) ==> next.open[other] == w.open[other]
            &&& next.key == w.key
            &&& next.warning == w.warning
        }),
{
}

/// Another hotkey is listened for from now on, on the keyboards that are open,
/// and the old one is forgotten everywhere.
pub proof fn another_hotkey_is_listened_for(w: Watched, key: u16, d: Seq<char>)
    ensures
        ({
            let next = w.set_key(key).0;
            &&& next.key == key
            &&& next.open == w.open
            &&& next.warning == w.warning
            &&& !next.held.contains(d)
        }),
{
}

/// A device is listened to exactly if it has letters, told by A and Z, or the
/// hotkey; then all its keys are known.
pub proof fn keyboards_have_letters_or_the_hotkey(keys: Option<Seq<u16>>, hotkey: u16)
    ensures
        caps_of(keys, hotkey) is Some <==> (keys matches Some(k) && ((k.contains(30) && k.contains(
            44,
        )) || k.contains(hotkey))),
        caps_of(keys, hotkey) is Some ==> caps_of(keys, hotkey) == keys,
{
}

/// What is wrong after a scan, where no keyboard has the hotkey: access was
/// refused and nothing is open, or keyboards are open that lack it, or there is
/// none at all.
pub proof fn scans_tell_what_is_wrong(
    open: Map<Seq<char>, Set<u16>>,
    hotkey: u16,
    denied: bool,
    name: Seq<char>,
)
    requires
        !some_has_key(open, hotkey),
    ensures
        open.dom().contains(name) ==> scan_warning(open, hotkey, denied) == Some(
            "No connected keyboard has a "@ + labels::key_label(evdev_key_name(hotkey))
                + " key. Pick another in Settings."@,
        ),
        open.dom() == Set::<Seq<char>>::empty() && denied ==> scan_warning(open, hotkey, denied)
            == Some(
            "Can't read keyboards. Add yourself to the input group: sudo usermod -aG input $USER, then log out and in."@,
        ),
        open.dom() == Set::<Seq<char>>::empty() && !denied ==> scan_warning(open, hotkey, denied)
            == Some("No keyboard found."@),
{
    if open.dom() == Set::<Seq<char>>::empty() {
        assert(open =~= Map::<Seq<char>, Set<u16>>::empty());
    }
}

/// The end of a scan reports what is wrong, or that nothing is any more,
/// exactly if that is news, and remembers it; the keyboards stay as they are.
pub proof fn scans_report_news(w: Watched, hotkey: u16, denied: bool)
    ensures
        ({
            let (next, ev) = w.scanned(hotkey, denied);
            let found = exists|name: Seq<char>| #[trigger]
                w.open.dom().contains(name) && w.open[name].contains(hotkey);
            &&& next.warning is None <==> found
            &&& ev is None <==> next.warning == w.warning
            &&& ev matches Some(e) ==> match next.warning {
                Some(msg) => e == Happening::KeyboardsMissing(msg),
                None => e is KeyboardsOk,
            }
            &&& next.key == w.key
            &&& next.open == w.open
            &&& next.held == w.held
        }),
{
}

/// A key name that is known gives its key, and any other Right Alt.
pub proof fn unknown_keys_mean_right_alt(found: Option<u16>)
    ensures
        found matches Some(code) ==> key_or_default(found) == code,
        found is None ==> key_or_default(found) == 100,
{
}

/// A supervisor counts as stopped once nothing was heard of it for more than
/// twenty seconds; one that was heard of later than now was heard of now, and
/// one that was never heard of has not stopped.
pub proof fn supervisors_stop_after_twenty_seconds(heartbeat: u64, now: u64)
    ensures
        heartbeat == 0 ==> age_of(heartbeat, now) is None && !has_stopped(heartbeat, now),
        heartbeat > 0 ==> age_of(heartbeat, now) is Some,
        heartbeat > 0 && now < heartbeat ==> age_of(heartbeat, now) == Some(0u64),
        heartbeat > 0 ==> (has_stopped(heartbeat, now) <==> now > heartbeat - 1 + 20_000),
{
}

} // verus!
