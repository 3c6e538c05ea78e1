//! The session bus: the names on it, who runs the engine, and how the panel
//! and the settings window follow it.

use vstd::prelude::*;

verus! {

/// The id of the application.
pub const APP_ID: &'static str = "io.github.markmiddo.Murmur";

/// The bus name of the engine.
pub const DBUS_NAME: &'static str = "io.github.markmiddo.Murmur";

/// The path of the engine's object.
pub const DBUS_PATH: &'static str = "/io/github/markmiddo/Murmur";

/// The interface of the engine's object.
pub const DBUS_IFACE: &'static str = "io.github.markmiddo.Murmur1";

/// A missing engine is asked for this often, in milliseconds.
pub const SEARCH_MS: u64 = 700;

/// After a loss the connection is made anew this much later, in milliseconds.
pub const RECONNECT_MS: u64 = 1_000;

/// The bus's reply to the request for the engine's name.
#[derive(Clone, Copy, Debug, PartialEq, Eq, Structural)]
pub enum NameReply {
    PrimaryOwner,
    AlreadyOwner,
    InQueue,
    Exists,
    /// The bus refused because the name is taken.
    Taken,
    /// The request failed otherwise.
    Failed,
}

/// What the engine does once the bus has replied.
#[derive(Clone, Copy, Debug, PartialEq, Eq, Structural)]
pub enum Startup {
    /// It runs.
    Run,
    /// Another engine runs already: it ends without an error.
    Leave,
    /// It ends with the error.
    Fail,
}

/// What the engine does once the bus has replied: it never runs twice.
pub fn startup(reply: NameReply) -> (r: Startup)
    ensures
        r is Run <==> reply is PrimaryOwner || reply is AlreadyOwner,
        r is Fail <==> reply is Failed,
{
    match reply {
        NameReply::PrimaryOwner | NameReply::AlreadyOwner => Startup::Run,
        NameReply::Failed => Startup::Fail,
        _ => Startup::Leave,
    }
}

/// What is read of the engine when it is found.
#[derive(Clone, Copy, Debug, PartialEq, Eq, Structural)]
pub enum Field {
    State,
    Detail,
    Enabled,
    Model,
    Hotkey,
    History,
}

/// All fields, in the order in which they are read.
pub open spec fn fields() -> Seq<Field> {
    seq![
        Field::State,
        Field::Detail,
        Field::Enabled,
        Field::Model,
        Field::Hotkey,
        Field::History,
    ]
}

impl Field {
    /// The field that is read next, if any.
    pub open spec fn next(self) -> Option<Field> {
        match self {
            Field::State => Some(Field::Detail),
            Field::Detail => Some(Field::Enabled),
            Field::Enabled => Some(Field::Model),
            Field::Model => Some(Field::Hotkey),
            Field::Hotkey => Some(Field::History),
            Field::History => None,
        }
    }

    /// The field that is read next, if any.
    pub fn following(self) -> (r: Option<Field>)
        ensures
            r == self.next(),
    {
        match self {
            Field::State => Some(Field::Detail),
            Field::Detail => Some(Field::Enabled),
            Field::Enabled => Some(Field::Model),
            Field::Model => Some(Field::Hotkey),
            Field::Hotkey => Some(Field::History),
            Field::History => None,
        }
    }
}

/// How far the connection to the engine is.
#[derive(Clone, Copy, Debug, PartialEq, Eq, Structural)]
pub enum Link {
    /// The engine is looked for.
    Searching,
    /// A field of the engine is being read.
    Reading(Field),
    /// News of the engine are passed on.
    Following,
}

/// What the connection brings.
#[derive(Clone, Copy, Debug, PartialEq, Eq, Structural)]
pub enum Seen {
    /// Whether someone owns the engine's name.
    Owner(bool),
    /// The field that was asked for.
    Value,
    /// A change that the engine signalled.
    News,
    /// A name changed hands: whether it is the engine's, and whether nobody
    /// owns it now.
    OwnerChange { engine: bool, vacant: bool },
    /// Nobody takes the news any more.
    Unheard,
    /// The connection failed or ended.
    Broken,
}

/// What to do about the connection.
#[derive(Clone, Copy, Debug, PartialEq, Eq, Structural)]
pub enum Deed {
    /// Connect to the bus.
    Connect,
    /// Ask whether someone owns the engine's name.
    AskOwner,
    /// Say that the engine is not there.
    TellDisconnected,
    /// Say that the engine is there.
    TellConnected,
    /// Wait so many milliseconds.
    Rest(u64),
    /// Read a field of the engine.
    Read(Field),
    /// Pass on what has just come; `must_reach` says whether it matters that
    /// nobody takes it.
    Forward { must_reach: bool },
    /// Listen for changes.
    Follow,
}

/// The engine is gone, or the way to it: say so and begin anew.
pub open spec fn lost() -> (Link, Seq<Deed>) {
    (
        Link::Searching,
        seq![Deed::TellDisconnected, Deed::Rest(RECONNECT_MS), Deed::Connect, Deed::AskOwner],
    )
}

impl Link {
    /// Whether something can come now.
    pub open spec fn expects(self, seen: Seen) -> bool {
        match seen {
            Seen::Owner(_) => self is Searching,
            Seen::Value => self is Reading,
            Seen::News | Seen::OwnerChange { .. } | Seen::Unheard => self is Following,
            Seen::Broken => true,
        }
    }

    /// What it leads to.
    pub open spec fn next(self, seen: Seen) -> (Link, Seq<Deed>) {
        match seen {
            Seen::Owner(there) => if there {
                (
                    Link::Reading(Field::State),
                    seq![Deed::TellConnected, Deed::Read(Field::State)],
                )
            } else {
                (self, seq![Deed::TellDisconnected, Deed::Rest(SEARCH_MS), Deed::AskOwner])
            },
            Seen::Value => match self->Reading_0.next() {
                Some(f) => (Link::Reading(f), seq![Deed::Forward { must_reach: false }, Deed::Read(f)]),
                None => (Link::Following, seq![Deed::Forward { must_reach: false }, Deed::Follow]),
            },
            Seen::News => (self, seq![Deed::Forward { must_reach: true }]),
            Seen::OwnerChange { engine, vacant } => if engine && vacant {
                lost()
            } else {
                (self, seq![])
            },
            Seen::Unheard => lost(),
            Seen::Broken => lost(),
        }
    }
}

/// Follows the engine until it goes away, and then again.
pub struct Watch {
    link: Link,
}

impl View for Watch {
    type V = Link;

    closed spec fn view(&self) -> Link {
        self.link
    }
}

/// The deeds of a lost engine.
fn start_over() -> (r: Vec<Deed>)
    ensures
        r@ == lost().1,
{
    let mut out: Vec<Deed> = Vec::new();
    out.push(Deed::TellDisconnected);
    out.push(Deed::Rest(RECONNECT_MS));
    out.push(Deed::Connect);
    out.push(Deed::AskOwner);
    out
}

impl Watch {
    /// A watch that looks for the engine, and its first deeds.
    pub fn new() -> (r: (Watch, Vec<Deed>))
        ensures
            r.0@ == Link::Searching,
            r.1@ == seq![Deed::Connect, Deed::AskOwner],
    {
        let mut out: Vec<Deed> = Vec::new();
        out.push(Deed::Connect);
        out.push(Deed::AskOwner);
        (Watch { link: Link::Searching }, out)
    }

    /// Whether something can come now.
    pub fn awaits(&self, seen: Seen) -> (r: bool)
        ensures
            r == self@.expects(seen),
    {
        match seen {
            Seen::Owner(_) => matches!(self.link, Link::Searching),
            Seen::Value => matches!(self.link, Link::Reading(_)),
            Seen::News => matches!(self.link, Link::Following),
            Seen::OwnerChange { .. } => matches!(self.link, Link::Following),
            Seen::Unheard => matches!(self.link, Link::Following),
            Seen::Broken => true,
        }
    }

    /// Takes what the connection brings, and says what to do.
    pub fn step(&mut self, seen: Seen) -> (r: Vec<Deed>)
        requires
            old(self)@.expects(seen),
        ensures
            (final(self)@, r@) == old(self)@.next(seen),
    {
        let mut out: Vec<Deed> = Vec::new();
        match seen {
            Seen::Owner(there) => {
                if there {
                    self.link = Link::Reading(Field::State);
                    out.push(Deed::TellConnected);
                    out.push(Deed::Read(Field::State));
                } else {
                    out.push(Deed::TellDisconnected);
                    out.push(Deed::Rest(SEARCH_MS));
                    out.push(Deed::AskOwner);
                }
            },
            Seen::Value => {
                out.push(Deed::Forward { must_reach: false });
                if let Link::Reading(field) = self.link {
                    match field.following() {
                        Some(f) => {
                            self.link = Link::Reading(f);
                            out.push(Deed::Read(f));
                        },
                        None => {
                            self.link = Link::Following;
                            out.push(Deed::Follow);
                        },
                    }
                }
            },
            Seen::News => {
                out.push(Deed::Forward { must_reach: true });
            },
            Seen::OwnerChange { engine, vacant } => {
                if engine && vacant {
                    self.link = Link::Searching;
                    return start_over();
                }
            },
            Seen::Unheard => {
                self.link = Link::Searching;
                return start_over();
            },
            Seen::Broken => {
                self.link = Link::Searching;
                return start_over();
            },
        }
        out
    }
}

/// An engine that is found is read in full before its news are followed:
/// each field once, in order.
pub proof fn found_engine_is_read_in_full(i: int)
    requires
        0 <= i < fields().len(),
    ensures
        Link::Searching.next(Seen::Owner(true)).0 == Link::Reading(fields()[0]),
        i + 1 < fields().len() ==> Link::Reading(fields()[i]).next(Seen::Value) == (
            Link::Reading(fields()[i + 1]),
            seq![Deed::Forward { must_reach: false }, Deed::Read(fields()[i + 1])],
        ),
        i + 1 == fields().len() ==> Link::Reading(fields()[i]).next(Seen::Value) == (
            Link::Following,
            seq![Deed::Forward { must_reach: false }, Deed::Follow],
        ),
{
}

/// Whatever goes wrong, the listener is told that the engine is gone, and it
/// is looked for again.
pub proof fn lost_engine_is_told_and_sought(link: Link, seen: Seen)
    requires
        link.expects(seen),
        seen is Broken || seen is Unheard || seen == (Seen::OwnerChange {
            engine: true,
            vacant: true,
        }) || seen == Seen::Owner(false),
    ensures
        link.next(seen).0 == Link::Searching,
        link.next(seen).1[0] == Deed::TellDisconnected,
        link.next(seen).1.last() == Deed::AskOwner,
{
}

/// Other names that change hands, and an engine that is replaced by another,
/// are no loss.
pub proof fn other_owners_do_not_matter(link: Link, engine: bool, vacant: bool)
    requires
        link is Following,
        !engine || !vacant,
    ensures
        link.next(Seen::OwnerChange { engine, vacant }) == (link, Seq::<Deed>::empty()),
{
}

/// Every field of the engine is read, and none twice.
pub proof fn every_field_is_read(f: Field)
    ensures
        fields().len() == 6,
        fields().contains(f),
        fields().no_duplicates(),
{
    let all = fields();
    assert(all[0] == Field::State && all[1] == Field::Detail && all[2] == Field::Enabled && all[3]
        == Field::Model && all[4] == Field::Hotkey && all[5] == Field::History);
}

/// An engine that is found is announced before anything of it is read, and one
/// that is not is asked for again after a while.
pub proof fn found_engines_are_announced(there: bool)
    ensures
        ({
            let (next, deeds) = Link::Searching.next(Seen::Owner(there));
            &&& there ==> next is Reading && deeds == seq![
                Deed::TellConnected,
                Deed::Read(Field::State),
            ]
            &&& !there ==> next is Searching && deeds == seq![
                Deed::TellDisconnected,
                Deed::Rest(700),
                Deed::AskOwner,
            ]
        }),
{
}

/// All news are passed on for as long as the engine is followed, and it matters
/// that they arrive.
pub proof fn news_are_passed_on(link: Link)
    requires
        link is Following,
    ensures
        link.next(Seen::News) == (link, seq![Deed::Forward { must_reach: true }]),
{
}

/// After a loss the bus is connected to anew, a second later.
pub proof fn lost_connections_are_made_anew(link: Link, seen: Seen)
    requires
        link.expects(seen),
        seen is Broken || seen is Unheard || seen == (Seen::OwnerChange {
            engine: true,
            vacant: true,
        }),
    ensures
        link.next(seen).1 == seq![
            Deed::TellDisconnected,
            Deed::Rest(1_000),
            Deed::Connect,
            Deed::AskOwner,
        ],
{
}

/// A watch takes what its link can bring, and a broken connection at any time.
pub proof fn links_await_what_they_can_bring(link: Link, seen: Seen)
    ensures
        seen is Broken ==> link.expects(seen),
        link is Searching && !(seen is Broken) ==> (link.expects(seen) <==> seen is Owner),
        link is Reading && !(seen is Broken) ==> (link.expects(seen) <==> seen is Value),
        link is Following && !(seen is Broken) ==> (link.expects(seen) <==> seen is News || seen
            is OwnerChange || seen is Unheard),
{
}

} // verus!
