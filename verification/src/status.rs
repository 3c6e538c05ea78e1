//! The snapshot that is published over the session bus.

use vstd::prelude::*;

use crate::state::State;
use crate::text::same_text;

verus! {

/// How many transcripts are remembered.
pub const HISTORY_LEN: usize = 20;

/// The snapshot, as plain text and numbers.
#[verifier::ext_equal]
pub struct StatusView {
    pub state: State,
    pub detail: Seq<char>,
    pub level: u8,
    pub enabled: bool,
    pub model: Seq<char>,
    pub hotkey: Seq<char>,
    pub history: Seq<(i64, Seq<char>)>,
}

/// Snapshot published over D-Bus.
pub struct Status {
    pub state: State,
    pub detail: String,
    /// Microphone level in hundredths while recording.
    pub level: u8,
    pub enabled: bool,
    pub model: String,
    pub hotkey: String,
    /// Recent transcripts as (unix time, text), newest first.
    pub history: Vec<(i64, String)>,
}

/// Times and texts of transcripts.
pub open spec fn history_view(history: Seq<(i64, String)>) -> Seq<(i64, Seq<char>)> {
    history.map_values(|h: (i64, String)| (h.0, h.1@))
}

impl View for Status {
    type V = StatusView;

    open spec fn view(&self) -> StatusView {
        StatusView {
            state: self.state,
            detail: self.detail@,
            level: self.level,
            enabled: self.enabled,
            model: self.model@,
            hotkey: self.hotkey@,
            history: history_view(self.history@),
        }
    }
}

/// The snapshot of an engine that has not published anything.
pub open spec fn blank_status() -> StatusView {
    StatusView {
        state: State::Starting,
        detail: seq![],
        level: 0,
        enabled: false,
        model: seq![],
        hotkey: seq![],
        history: seq![],
    }
}

impl Default for Status {
    fn default() -> (r: Status)
        ensures
            r@ == blank_status(),
    {
        let history: Vec<(i64, String)> = Vec::new();
        Status {
            state: State::Starting,
            detail: String::new(),
            level: 0,
            enabled: false,
            model: String::new(),
            hotkey: String::new(),
            history,
        }
    }
}

/// A copy of a history.
pub fn copy_history(history: &Vec<(i64, String)>) -> (r: Vec<(i64, String)>)
    ensures
        history_view(r@) == history_view(history@),
{
    let mut out: Vec<(i64, String)> = Vec::new();
    let mut i: usize = 0;
    let ghost all = history_view(history@);
    while i < history.len()
        invariant
            i <= history@.len(),
            all == history_view(history@),
            history_view(out@) == all.take(i as int),
        decreases history@.len() - i,
    {
        let ghost before = history_view(out@);
        out.push((history[i].0, history[i].1.clone()));
        assert(history_view(out@) == before.push(all[i as int]));
        i = i + 1;
    }
    out
}

/// Whether two histories are the same.
pub fn same_history(a: &Vec<(i64, String)>, b: &Vec<(i64, String)>) -> (r: bool)
    ensures
        r == (history_view(a@) == history_view(b@)),
{
    let ghost x = history_view(a@);
    let ghost y = history_view(b@);
    if a.len() != b.len() {
        return false;
    }
    let mut i: usize = 0;
    while i < a.len()
        invariant
            i <= a@.len() == b@.len(),
            x == history_view(a@),
            y == history_view(b@),
            forall|k: int| 0 <= k < i ==> x[k] == #[trigger] y[k],
        decreases a@.len() - i,
    {
        if !(a[i].0 == b[i].0 && same_text(a[i].1.as_str(), b[i].1.as_str())) {
            assert(x[i as int] != y[i as int]);
            return false;
        }
        i = i + 1;
    }
    assert(x == y);
    true
}

/// The properties of the bus object whose changes are signalled.
#[derive(Clone, Copy, Debug, PartialEq, Eq, Structural)]
pub enum Property {
    State,
    Detail,
    Level,
    Enabled,
    Model,
    Hotkey,
}

/// The property alone if it changed, nothing if not.
pub open spec fn if_changed(changed: bool, p: Property) -> Seq<Property> {
    if changed {
        seq![p]
    } else {
        seq![]
    }
}

/// The properties in which two snapshots differ.
pub open spec fn changes(before: StatusView, after: StatusView) -> Seq<Property> {
    if_changed(before.state != after.state, Property::State) + if_changed(
        before.detail != after.detail,
        Property::Detail,
    ) + if_changed(before.level != after.level, Property::Level) + if_changed(
        before.enabled != after.enabled,
        Property::Enabled,
    ) + if_changed(before.model != after.model, Property::Model) + if_changed(
        before.hotkey != after.hotkey,
        Property::Hotkey,
    )
}

impl Status {
    /// A copy.
    pub fn copy(&self) -> (r: Status)
        ensures
            r@ == self@,
    {
        Status {
            state: self.state,
            detail: self.detail.clone(),
            level: self.level,
            enabled: self.enabled,
            model: self.model.clone(),
            hotkey: self.hotkey.clone(),
            history: copy_history(&self.history),
        }
    }

    /// The properties in which a newer snapshot differs.
    pub fn changed_in(&self, new: &Status) -> (r: Vec<Property>)
        ensures
            r@ == changes(self@, new@),
    {
        let mut out: Vec<Property> = Vec::new();
        if self.state != new.state {
            out.push(Property::State);
        }
        if !same_text(self.detail.as_str(), new.detail.as_str()) {
            out.push(Property::Detail);
        }
        if self.level != new.level {
            out.push(Property::Level);
        }
        if self.enabled != new.enabled {
            out.push(Property::Enabled);
        }
        if !same_text(self.model.as_str(), new.model.as_str()) {
            out.push(Property::Model);
        }
        if !same_text(self.hotkey.as_str(), new.hotkey.as_str()) {
            out.push(Property::Hotkey);
        }
        out
    }

    /// Whether two snapshots are the same.
    pub fn same(&self, other: &Status) -> (r: bool)
        ensures
            r == (self@ == other@),
    {
        self.state == other.state && same_text(self.detail.as_str(), other.detail.as_str())
            && self.level == other.level && self.enabled == other.enabled && same_text(
            self.model.as_str(),
            other.model.as_str(),
        ) && same_text(self.hotkey.as_str(), other.hotkey.as_str()) && same_history(
            &self.history,
            &other.history,
        )
    }
}

/// One property more, if it changed.
proof fn lemma_if_changed(front: Seq<Property>, changed: bool, q: Property, p: Property)
    ensures
        (front + if_changed(changed, q)).contains(p) <==> front.contains(p) || (changed && p == q),
{
    let all = front + if_changed(changed, q);
    if front.contains(p) {
        let i = front.index_of(p);
        assert(all[i] == p);
    }
    if changed {
        assert(all[front.len() as int] == q);
    }
}

/// A property is signalled exactly if it differs.
pub proof fn differences_are_signalled(before: StatusView, after: StatusView, p: Property)
    ensures
        changes(before, after).contains(p) <==> match p {
            Property::State => before.state != after.state,
            Property::Detail => before.detail != after.detail,
            Property::Level => before.level != after.level,
            Property::Enabled => before.enabled != after.enabled,
            Property::Model => before.model != after.model,
            Property::Hotkey => before.hotkey != after.hotkey,
        },
        changes(before, after).len() <= 6,
{
    let none = Seq::<Property>::empty();
    let a = if_changed(before.state != after.state, Property::State);
    let b = a + if_changed(before.detail != after.detail, Property::Detail);
    let c = b + if_changed(before.level != after.level, Property::Level);
    let d = c + if_changed(before.enabled != after.enabled, Property::Enabled);
    let e = d + if_changed(before.model != after.model, Property::Model);
    lemma_if_changed(none, before.state != after.state, Property::State, p);
    assert(none + a =~= a);
    lemma_if_changed(a, before.detail != after.detail, Property::Detail, p);
    lemma_if_changed(b, before.level != after.level, Property::Level, p);
    lemma_if_changed(c, before.enabled != after.enabled, Property::Enabled, p);
    lemma_if_changed(d, before.model != after.model, Property::Model, p);
    lemma_if_changed(e, before.hotkey != after.hotkey, Property::Hotkey, p);
}

} // verus!
