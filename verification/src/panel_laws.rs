//! What holds of the panel button in every state: which message asks for which
//! action, what each of them leaves alone, and what is shown when.

use vstd::prelude::*;

use crate::labels;
use crate::panel::{Call, Icon, Message, PanelAction, PanelView, Tint, Update};
use crate::state::State;
use crate::status;

verus! {

/// In a short sequence an action can be looked for place by place.
proof fn lemma_short(acts: Seq<PanelAction>, a: PanelAction)
    requires
        acts.len() <= 2,
    ensures
        acts.contains(a) <==> (acts.len() > 0 && acts[0] == a) || (acts.len() > 1 && acts[1] == a),
{
}

/// The engine is called exactly where that is asked for and the engine is
/// there: to begin or end a dictation, to pause or go on, to reload saved
/// settings, and to try again.
pub proof fn calls_are_asked_for(p: PanelView, message: Message, now: u128, call: Call)
    requires
        p.inv(),
    ensures
        p.update(message, now).1.contains(PanelAction::Call(call)) <==> p.connected && match call {
            Call::ToggleRecording => message is StartDictation || (message is TogglePopup && p.state
                == State::Recording),
            Call::SetEnabled(on) => message == Message::SetEnabled(on),
            Call::ReloadConfig => message is Saved,
            Call::Retry => message is Retry,
        },
{
    lemma_short(p.update(message, now).1, PanelAction::Call(call));
}

/// The engine is started exactly if it is missing and either the user asks for
/// it, or it has been missing for four seconds and was not started in the last
/// ten. When it was started is remembered.
pub proof fn missing_engines_are_started(p: PanelView, message: Message, now: u128)
    requires
        p.inv(),
        message is Retry && !p.connected ==> now >= 4_000_000_000,
    ensures
        ({
            let (next, acts) = p.update(message, now);
            let gone = p.disconnected_since matches Some(since) && now >= since + 4_000_000_000;
            let rested = p.last_spawn matches Some(at) ==> now >= at + 10_000_000_000;
            let looked = message is Tick || (message matches Message::Engine(u) && u
                is Disconnected);
            let starts = !p.connected && (message is Retry || (looked && gone && rested));
            &&& acts.contains(PanelAction::StartEngine) <==> starts
            &&& starts ==> next.last_spawn == Some(now)
            &&& !starts ==> next.last_spawn == p.last_spawn
        }),
{
    lemma_short(p.update(message, now).1, PanelAction::StartEngine);
}

/// A click opens the popup, with the sounds setting as it is on disk, if
/// nothing is recorded and none is open. A click, a dictation and the settings
/// window close the one that is open.
pub proof fn popups_open_and_close(p: PanelView, message: Message, now: u128, id: u64)
    requires
        p.inv(),
    ensures
        ({
            let (next, acts) = p.update(message, now);
            let click = message is TogglePopup && p.state != State::Recording;
            let opens = click && p.popup is None;
            let closes = p.popup is Some && (click || message is DictateNow || message
                is OpenSettings);
            &&& acts.contains(PanelAction::OpenPopup) <==> opens
            &&& acts.contains(PanelAction::ReadSounds) <==> opens
            &&& acts.contains(PanelAction::ClosePopup(id)) <==> closes && p.popup == Some(id)
            &&& closes ==> next.popup is None
            &&& message matches Message::PopupOpened(n) ==> next.popup == Some(n)
            &&& message matches Message::PopupClosed(n) ==> (if p.popup == Some(n) {
                next.popup is None
            } else {
                next.popup == p.popup
            })
            &&& !closes && !(message is PopupOpened) && !(message is PopupClosed) ==> next.popup
                == p.popup
        }),
{
    let acts = p.update(message, now).1;
    lemma_short(acts, PanelAction::OpenPopup);
    lemma_short(acts, PanelAction::ReadSounds);
    lemma_short(acts, PanelAction::ClosePopup(id));
}

/// The sounds setting is saved when it is set, a transcript is copied if there
/// is one, a dictation begins a moment after it is asked for, and the settings
/// window opens when it is asked for.
pub proof fn clicks_are_followed(
    p: PanelView,
    message: Message,
    now: u128,
    on: bool,
    i: usize,
    ms: u64,
)
    requires
        p.inv(),
    ensures
        ({
            let acts = p.update(message, now).1;
            &&& acts.contains(PanelAction::SaveSounds(on)) <==> message == Message::SetSounds(on)
            &&& acts.contains(PanelAction::CopyLine(i)) <==> message == Message::Copy(i) && i
                < p.history.len()
            &&& acts.contains(PanelAction::DictateAfter(ms)) <==> message is DictateNow && ms == 250
            &&& acts.contains(PanelAction::OpenSettings) <==> message is OpenSettings
        }),
{
    let acts = p.update(message, now).1;
    lemma_short(acts, PanelAction::SaveSounds(on));
    lemma_short(acts, PanelAction::CopyLine(i));
    lemma_short(acts, PanelAction::DictateAfter(ms));
    lemma_short(acts, PanelAction::OpenSettings);
}

/// News of the engine are shown as they come, each in its own place, and
/// nothing else changes what is shown of it.
pub proof fn news_are_shown(p: PanelView, message: Message, now: u128)
    requires
        p.inv(),
    ensures
        ({
            let next = p.update(message, now).0;
            let gone = message matches Message::Engine(u) && u is Disconnected;
            let named = message matches Message::Engine(u) && u is State;
            let told = message matches Message::Engine(u) && u is Detail;
            let heard = message matches Message::Engine(u) && u is Level;
            let modelled = message matches Message::Engine(u) && u is Model;
            let keyed = message matches Message::Engine(u) && u is Hotkey;
            &&& gone ==> next.state == State::Error && next.detail == "Engine not running"@
            &&& named ==> next.state == State::named(message->Engine_0->State_0@)
            &&& told ==> next.detail == message->Engine_0->Detail_0@
            &&& heard ==> next.level == message->Engine_0->Level_0
            &&& named ==> next.level == if next.state == State::Recording {
                p.level
            } else {
                0
            }
            &&& modelled ==> next.model == message->Engine_0->Model_0@
            &&& keyed ==> next.hotkey == message->Engine_0->Hotkey_0@
            &&& !gone && !named ==> next.state == p.state
            &&& !gone && !told ==> next.detail == p.detail
            &&& !named && !heard ==> next.level == p.level
            &&& !modelled ==> next.model == p.model
            &&& !keyed ==> next.hotkey == p.hotkey
        }),
{
}

/// The engine is there from the news of it until the news of its loss, and how
/// long it has been missing is counted from that loss.
pub proof fn losses_are_timed(p: PanelView, message: Message, now: u128)
    requires
        p.inv(),
        message is Retry && !p.connected ==> now >= 4_000_000_000,
    ensures
        ({
            let next = p.update(message, now).0;
            let found = message matches Message::Engine(u) && u is Connected;
            let gone = message matches Message::Engine(u) && u is Disconnected;
            &&& found ==> next.connected && next.disconnected_since is None
            &&& gone ==> !next.connected
            &&& gone && p.connected ==> next.disconnected_since == Some(now)
            &&& gone && !p.connected ==> next.disconnected_since == p.disconnected_since
            &&& !found && !gone ==> next.connected == p.connected
            &&& !found && !gone && (!(message is Retry) || p.connected) ==> next.disconnected_since
                == p.disconnected_since
        }),
{
}

/// The switches show what was set last, here or by the engine; the transcripts
/// are those of the engine, and the mark of a copy stays until new ones come or
/// the popup is opened again.
pub proof fn switches_show_what_was_set(p: PanelView, message: Message, now: u128)
    requires
        p.inv(),
    ensures
        ({
            let next = p.update(message, now).0;
            let enables = message matches Message::Engine(u) && u is Enabled;
            let lists = message matches Message::Engine(u) && u is History;
            let opens = message is TogglePopup && p.state != State::Recording && p.popup is None;
            let copies = message matches Message::Copy(i) && i < p.history.len();
            &&& message matches Message::SetEnabled(on) ==> next.enabled == on
            &&& enables ==> next.enabled == message->Engine_0->Enabled_0
            &&& !(message is SetEnabled) && !enables ==> next.enabled == p.enabled
            &&& message matches Message::SetSounds(on) ==> next.sounds == on
            &&& message matches Message::SoundsRead(on) ==> next.sounds == on
            &&& !(message is SetSounds) && !(message is SoundsRead) ==> next.sounds == p.sounds
            &&& lists ==> next.history == status::history_view(message->Engine_0->History_0@)
            &&& !lists ==> next.history == p.history
            &&& lists || opens ==> next.copied is None
            &&& copies ==> next.copied == Some(message->Copy_0)
            &&& !lists && !opens && !copies ==> next.copied == p.copied
        }),
{
}

/// The meter moves while an engine that is there records or transcribes, at
/// thirty frames a second; a missing engine is looked for once a second; and
/// otherwise there are no ticks.
pub proof fn ticks_come_when_needed(p: PanelView)
    ensures
        ({
            let busy = p.connected && (p.state is Recording || p.state is Transcribing);
            &&& p.animating() <==> busy
            &&& busy ==> p.tick_every() == Some(33u64)
            &&& !p.connected ==> p.tick_every() == Some(1_000u64)
            &&& p.connected && !busy ==> p.tick_every() is None
        }),
{
}

/// The icon tells an engine that is missing or in trouble, and one that is
/// paused, from one that works.
pub proof fn icons_tell_the_state(p: PanelView)
    ensures
        p.icon() is MicError <==> !p.connected || p.state is Error,
        p.icon() is MicOff <==> p.connected && p.state is Disabled,
        p.icon() is Mic <==> p.connected && !(p.state is Error) && !(p.state is Disabled),
{
}

/// The colours of the status dot and of the bars: red while recording, a
/// warning for an error, green for an engine that is ready, and no colour on
/// the bars of a missing one.
pub proof fn colours_tell_the_state(p: PanelView)
    ensures
        p.tint() is Destructive <==> p.state is Recording,
        p.tint() is Warning <==> p.state is Error,
        p.tint() is Success <==> p.state is Idle && p.connected,
        !(p.tint() is Neutral),
        p.bar_tint() is Destructive <==> p.state is Recording,
        p.bar_tint() is Neutral <==> !p.connected && !(p.state is Recording),
        p.bar_tint() is Accent <==> p.connected && !(p.state is Recording),
{
}

/// The popup shows the newest transcripts, five at most: the beginning of each,
/// and how old it is, or that it is the one that was copied.
pub proof fn newest_transcripts_are_shown(p: PanelView, i: int, now: i64)
    requires
        0 <= i < p.shown(),
    ensures
        p.shown() <= 5,
        p.shown() <= p.history.len(),
        p.shown() == 5 || p.shown() == p.history.len(),
        ({
            let (text, right, mark) = p.line(i, now);
            &&& text == labels::shortened(p.history[i].1, 40)
            &&& mark <==> p.copied == Some(i as usize)
            &&& mark ==> right == "Copied"@
            &&& !mark ==> right == labels::ago_label(now - p.history[i].0)
        }),
{
}

/// At the start the engine is sought from now on, and nothing of it is shown.
pub proof fn panels_start_without_an_engine(sounds: bool, now: u128)
    ensures
        ({
            let p = PanelView::fresh(sounds, now);
            &&& !p.connected && p.disconnected_since == Some(now) && p.last_spawn is None
            &&& p.state is Starting && p.detail == "Starting…"@ && p.level == 0 && p.enabled
            &&& p.popup is None && p.copied is None && p.history.len() == 0
            &&& p.sounds == sounds && p.hotkey == "Right Alt"@ && p.model.len() == 0
        }),
{
}

} // verus!
