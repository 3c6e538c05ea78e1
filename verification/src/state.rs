//! What the engine is doing, as the panel and the bus know it.

use vstd::prelude::*;

use crate::text::same_text;

verus! {

/// What the engine is doing right now. Sent over D-Bus as a lowercase string.
#[derive(Debug, Clone, Copy, PartialEq, Eq, Structural)]
pub enum State {
    Starting,
    Downloading,
    Loading,
    Idle,
    Recording,
    Transcribing,
    Disabled,
    Error,
}

impl Default for State {
    fn default() -> (r: State)
        ensures
            r == State::Starting,
    {
        State::Starting
    }
}

impl State {
    /// The name of a state on the bus.
    pub open spec fn name(self) -> Seq<char> {
        match self {
            State::Starting => "starting"@,
            State::Downloading => "downloading"@,
            State::Loading => "loading"@,
            State::Idle => "idle"@,
            State::Recording => "recording"@,
            State::Transcribing => "transcribing"@,
            State::Disabled => "disabled"@,
            State::Error => "error"@,
        }
    }

    /// The state that a name stands for. Anything unknown is `Starting`.
    pub open spec fn named(s: Seq<char>) -> State {
        if s == "downloading"@ {
            State::Downloading
        } else if s == "loading"@ {
            State::Loading
        } else if s == "idle"@ {
            State::Idle
        } else if s == "recording"@ {
            State::Recording
        } else if s == "transcribing"@ {
            State::Transcribing
        } else if s == "disabled"@ {
            State::Disabled
        } else if s == "error"@ {
            State::Error
        } else {
            State::Starting
        }
    }

    /// The name of the state on the bus.
    pub fn as_str(self) -> (r: &'static str)
        ensures
            r@ == self.name(),
    {
        match self {
            State::Starting => "starting",
            State::Downloading => "downloading",
            State::Loading => "loading",
            State::Idle => "idle",
            State::Recording => "recording",
            State::Transcribing => "transcribing",
            State::Disabled => "disabled",
            State::Error => "error",
        }
    }

    /// The state with a given name, `Starting` if there is none.
    pub fn parse(s: &str) -> (r: State)
        ensures
            r == State::named(s@),
    {
        if same_text(s, "downloading") {
            State::Downloading
        } else if same_text(s, "loading") {
            State::Loading
        } else if same_text(s, "idle") {
            State::Idle
        } else if same_text(s, "recording") {
            State::Recording
        } else if same_text(s, "transcribing") {
            State::Transcribing
        } else if same_text(s, "disabled") {
            State::Disabled
        } else if same_text(s, "error") {
            State::Error
        } else {
            State::Starting
        }
    }
}

/// A state's name stands for that state.
pub proof fn state_round_trip(s: State)
    ensures
        State::named(s.name()) == s,
{
    reveal_strlit("starting");
    reveal_strlit("downloading");
    reveal_strlit("loading");
    reveal_strlit("idle");
    reveal_strlit("recording");
    reveal_strlit("transcribing");
    reveal_strlit("disabled");
    reveal_strlit("error");
    assert("starting"@[0] == 's' && "downloading"@[1] == 'o' && "loading"@[0] == 'l' && "idle"@[0]
        == 'i' && "recording"@[0] == 'r' && "transcribing"@[0] == 't' && "disabled"@[1] == 'i'
        && "error"@[0] == 'e');
}

/// No two states share a name.
pub proof fn state_names_are_distinct(a: State, b: State)
    ensures
        a.name() == b.name() ==> a == b,
{
    state_round_trip(a);
    state_round_trip(b);
}

/// The names of the states on the bus.
pub proof fn states_have_these_names(s: State)
    ensures
        s.name() == "starting"@ <==> s is Starting,
        s.name() == "downloading"@ <==> s is Downloading,
        s.name() == "loading"@ <==> s is Loading,
        s.name() == "idle"@ <==> s is Idle,
        s.name() == "recording"@ <==> s is Recording,
        s.name() == "transcribing"@ <==> s is Transcribing,
        s.name() == "disabled"@ <==> s is Disabled,
        s.name() == "error"@ <==> s is Error,
{
    state_round_trip(s);
    state_round_trip(State::Starting);
    state_round_trip(State::Downloading);
    state_round_trip(State::Loading);
    state_round_trip(State::Idle);
    state_round_trip(State::Recording);
    state_round_trip(State::Transcribing);
    state_round_trip(State::Disabled);
    state_round_trip(State::Error);
}

/// A name that is no state's means that the engine is starting.
pub proof fn unknown_names_mean_starting(name: Seq<char>)
    requires
        forall|s: State| #[trigger] s.name() != name,
    ensures
        State::named(name) == State::Starting,
{
    assert(State::Downloading.name() != name && State::Loading.name() != name && State::Idle.name()
        != name && State::Recording.name() != name && State::Transcribing.name() != name
        && State::Disabled.name() != name && State::Error.name() != name);
}

} // verus!
