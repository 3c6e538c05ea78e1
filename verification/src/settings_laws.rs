//! What holds of the settings window in every state: what each edit changes,
//! what it leaves alone, and what of it is written.

use vstd::prelude::*;

use crate::config::ConfigView;
use crate::labels;
use crate::models;
use crate::panel::Update;
use crate::replacements;
use crate::settings;
use crate::settings::{Edits, Message, SettingsAction, SettingsView};
use crate::state::State;
use crate::text;
use crate::text::CharSet;

verus! {

/// An edit sets its own setting to what was chosen, and leaves all others as
/// they are.
pub proof fn edits_set_their_own_setting(
    s: SettingsView,
    message: Message,
    entries: Seq<(Seq<char>, Seq<char>)>,
)
    ensures
        ({
            let next = s.update(message, entries).0.cfg;
            &&& message matches Message::Hotkey(i) ==> next.hotkey
                == settings::hotkey_choices()[i as int].0
            &&& message matches Message::Model(i) ==> next.model
                == models::catalogue()[i as int].id
            &&& message matches Message::Sounds(v) ==> next.sounds == v
            &&& message matches Message::TrailingSpace(v) ==> next.trailing_space == v
            &&& message matches Message::CancelOnOther(v) ==> next.cancel_on_other_key == v
            &&& message matches Message::RemoveFillers(v) ==> next.remove_fillers == v
            &&& message matches Message::Tail(i) ==> next.release_tail_ms
                == settings::tail_choices()[i as int]
            &&& message matches Message::MinHold(i) ==> next.min_hold_ms
                == settings::hold_choices()[i as int]
            &&& !(message is Hotkey) ==> next.hotkey == s.cfg.hotkey
            &&& !(message is Model) ==> next.model == s.cfg.model
            &&& !(message is Sounds) ==> next.sounds == s.cfg.sounds
            &&& !(message is TrailingSpace) ==> next.trailing_space == s.cfg.trailing_space
            &&& !(message is CancelOnOther) ==> next.cancel_on_other_key
                == s.cfg.cancel_on_other_key
            &&& !(message is RemoveFillers) ==> next.remove_fillers == s.cfg.remove_fillers
            &&& !(message is Tail) ==> next.release_tail_ms == s.cfg.release_tail_ms
            &&& !(message is MinHold) ==> next.min_hold_ms == s.cfg.min_hold_ms
        }),
{
}

/// The replacements are what the rows come to whenever settings are saved, and
/// stay as they are otherwise.
pub proof fn replacements_follow_the_rows(
    s: SettingsView,
    message: Message,
    entries: Seq<(Seq<char>, Seq<char>)>,
)
    ensures
        ({
            let (next, action) = s.update(message, entries);
            &&& action is Save ==> next.cfg.replacements == entries
            &&& !(action is Save) ==> next.cfg.replacements == s.cfg.replacements
        }),
{
}

/// Each message asks for what it is about: every edit is saved, and the engine
/// reloads it if it is there; the engine is restarted if it is there; the file
/// is opened; and news of the engine and an empty row ask for nothing.
pub proof fn messages_ask_for_their_own(
    s: SettingsView,
    message: Message,
    entries: Seq<(Seq<char>, Seq<char>)>,
)
    ensures
        ({
            let action = s.update(message, entries).1;
            let edits = message is Hotkey || message is Model || message is Sounds || message
                is TrailingSpace || message is CancelOnOther || message is RemoveFillers || message
                is Tail || message is MinHold || message is ReplFrom || message is ReplTo || message
                is ReplRemove;
            &&& edits <==> action is Save
            &&& edits ==> action == (SettingsAction::Save { reload: s.connected })
            &&& action is RestartEngine <==> message is RestartEngine && s.connected
            &&& action is OpenConfigFile <==> message is OpenConfigFile
        }),
{
}

/// A row is edited where the user edits it: its phrase or its replacement
/// changes, and nothing of any other row does.
pub proof fn rows_are_edited_in_place(
    s: SettingsView,
    message: Message,
    entries: Seq<(Seq<char>, Seq<char>)>,
    k: int,
)
    requires
        0 <= k < s.rows.len(),
        !(message is ReplRemove),
    ensures
        ({
            let rows = s.update(message, entries).0.rows;
            &&& rows.len() == s.rows.len() + if message is ReplAdd {
                1int
            } else {
                0int
            }
            &&& message is ReplAdd ==> rows.last().0.len() == 0 && rows.last().1.len() == 0
            &&& rows[k].0 == if message matches Message::ReplFrom(i, phrase) && i == k {
                message->ReplFrom_1@
            } else {
                s.rows[k].0
            }
            &&& rows[k].1 == if message matches Message::ReplTo(i, to) && i == k {
                message->ReplTo_1@
            } else {
                s.rows[k].1
            }
        }),
{
}

/// A row that is removed is gone, and the others stay in their order; one that
/// is not there cannot be.
pub proof fn removed_rows_are_gone(
    s: SettingsView,
    i: usize,
    entries: Seq<(Seq<char>, Seq<char>)>,
    k: int,
)
    requires
        0 <= k,
    ensures
        ({
            let rows = s.update(Message::ReplRemove(i), entries).0.rows;
            &&& i >= s.rows.len() ==> rows == s.rows
            &&& i < s.rows.len() ==> rows.len() == s.rows.len() - 1
            &&& i < s.rows.len() && k < i ==> rows[k] == s.rows[k]
            &&& i < s.rows.len() && i <= k < rows.len() ==> rows[k] == s.rows[k + 1]
        }),
{
}

/// News of the engine are shown as they come, and nothing else changes what is
/// shown of it.
pub proof fn engine_news_are_shown(
    s: SettingsView,
    message: Message,
    entries: Seq<(Seq<char>, Seq<char>)>,
)
    ensures
        ({
            let next = s.update(message, entries).0;
            let found = message matches Message::Engine(u) && u is Connected;
            let gone = message matches Message::Engine(u) && u is Disconnected;
            let named = message matches Message::Engine(u) && u is State;
            let told = message matches Message::Engine(u) && u is Detail;
            &&& found ==> next.connected
            &&& gone ==> !next.connected
            &&& !found && !gone ==> next.connected == s.connected
            &&& named ==> next.state == State::named(message->Engine_0->State_0@)
            &&& !named ==> next.state == s.state
            &&& told ==> next.detail == message->Engine_0->Detail_0@
            &&& !told ==> next.detail == s.detail
            &&& message is Engine ==> next.rows == s.rows && next.cfg == s.cfg && next.edits
                == s.edits
        }),
{
}

/// A setting counts as edited from its first edit on, and no other edit marks
/// it.
pub proof fn edits_are_remembered(
    s: SettingsView,
    message: Message,
    entries: Seq<(Seq<char>, Seq<char>)>,
)
    ensures
        ({
            let next = s.update(message, entries).0.edits;
            &&& next.hotkey <==> s.edits.hotkey || message is Hotkey
            &&& next.model <==> s.edits.model || message is Model
            &&& next.sounds <==> s.edits.sounds || message is Sounds
            &&& next.trailing_space <==> s.edits.trailing_space || message is TrailingSpace
            &&& next.cancel_on_other_key <==> s.edits.cancel_on_other_key || message
                is CancelOnOther
            &&& next.remove_fillers <==> s.edits.remove_fillers || message is RemoveFillers
            &&& next.release_tail_ms <==> s.edits.release_tail_ms || message is Tail
            &&& next.min_hold_ms <==> s.edits.min_hold_ms || message is MinHold
            &&& next.replacements <==> s.edits.replacements || message is ReplFrom || message
                is ReplTo || message is ReplRemove
        }),
{
}

/// What is written holds each edited setting as it is here, and each other as it
/// was read, whichever of them were edited.
pub proof fn edited_settings_are_written(s: SettingsView, read: ConfigView)
    ensures
        ({
            let written = s.to_write(Ok(read));
            &&& written matches Ok(w) && {
                &&& s.edits.hotkey ==> w.hotkey == s.cfg.hotkey
                &&& s.edits.model ==> w.model == s.cfg.model
                &&& s.edits.sounds ==> w.sounds == s.cfg.sounds
                &&& s.edits.trailing_space ==> w.trailing_space == s.cfg.trailing_space
                &&& s.edits.cancel_on_other_key ==> w.cancel_on_other_key
                    == s.cfg.cancel_on_other_key
                &&& s.edits.remove_fillers ==> w.remove_fillers == s.cfg.remove_fillers
                &&& s.edits.release_tail_ms ==> w.release_tail_ms == s.cfg.release_tail_ms
                &&& s.edits.min_hold_ms ==> w.min_hold_ms == s.cfg.min_hold_ms
                &&& s.edits.replacements ==> w.replacements == s.cfg.replacements
                &&& !s.edits.hotkey ==> w.hotkey == read.hotkey
                &&& !s.edits.model ==> w.model == read.model
                &&& !s.edits.sounds ==> w.sounds == read.sounds
                &&& !s.edits.trailing_space ==> w.trailing_space == read.trailing_space
                &&& !s.edits.cancel_on_other_key ==> w.cancel_on_other_key
                    == read.cancel_on_other_key
                &&& !s.edits.remove_fillers ==> w.remove_fillers == read.remove_fillers
                &&& !s.edits.release_tail_ms ==> w.release_tail_ms == read.release_tail_ms
                &&& !s.edits.min_hold_ms ==> w.min_hold_ms == read.min_hold_ms
                &&& !s.edits.replacements ==> w.replacements == read.replacements
            }
        }),
{
}

/// A file that could not be read is left alone, and its error passed on.
pub proof fn unread_files_are_left_alone(s: SettingsView, msg: Seq<char>)
    ensures
        s.to_write(Err(msg)) == Err::<ConfigView, Seq<char>>(msg),
{
}

/// Each row counts by itself, in its place: not at all if its phrase is blank,
/// and else with its phrase without the white space around it and its
/// replacement as it is.
pub proof fn rows_count_by_themselves(
    a: Seq<(Seq<char>, Seq<char>)>,
    b: Seq<(Seq<char>, Seq<char>)>,
)
    ensures
        settings::tidy_rows(a + b) == settings::tidy_rows(a) + settings::tidy_rows(b),
        a.len() == 0 ==> settings::tidy_rows(a).len() == 0,
        a.len() == 1 ==> ({
            let phrase = text::trim(a[0].0, CharSet::White);
            &&& phrase.len() == 0 ==> settings::tidy_rows(a).len() == 0
            &&& phrase.len() > 0 ==> settings::tidy_rows(a) == seq![(phrase, a[0].1)]
        }),
    decreases b.len(),
{
    reveal_with_fuel(settings::tidy_rows, 2);
    if a.len() == 1 {
        assert(settings::tidy_rows(a.drop_last()) =~= Seq::<(Seq<char>, Seq<char>)>::empty());
        assert(a.last() == a[0]);
        let phrase = text::trim(a[0].0, CharSet::White);
        if phrase.len() > 0 {
            assert(settings::tidy_rows(a) =~= seq![(phrase, a[0].1)]);
        }
    }
    if b.len() == 0 {
        assert(a + b =~= a);
        assert(settings::tidy_rows(a) + settings::tidy_rows(b) =~= settings::tidy_rows(a));
    } else {
        rows_count_by_themselves(a, b.drop_last());
        assert((a + b).drop_last() =~= a + b.drop_last());
        assert(settings::tidy_rows(a + b) =~= settings::tidy_rows(a) + settings::tidy_rows(b));
    }
}

/// Of two rows with one phrase the later counts, and a phrase that no row has is
/// not replaced.
pub proof fn later_rows_count(
    rows: Seq<(Seq<char>, Seq<char>)>,
    raw: Seq<char>,
    to: Seq<char>,
    entries: Seq<(Seq<char>, Seq<char>)>,
)
    requires
        text::trim(raw, CharSet::White).len() > 0,
        settings::come_to(rows.push((raw, to)), entries),
    ensures
        replacements::entry_map(entries).contains_key(text::trim(raw, CharSet::White)),
        replacements::entry_map(entries)[text::trim(raw, CharSet::White)] == to,
        replacements::entry_map(entries) == replacements::entry_map(
            settings::tidy_rows(rows),
        ).insert(text::trim(raw, CharSet::White), to),
{
    let more = rows.push((raw, to));
    assert(more.drop_last() =~= rows);
    let tidy = settings::tidy_rows(more);
    assert(tidy.drop_last() =~= settings::tidy_rows(rows));
}

/// Times are told in milliseconds, and a release tail of none is off. Of a model
/// that is not installed it is told how many whole megabytes there are to
/// download.
pub proof fn times_and_sizes_are_told(ms: u64, model: models::ModelView) -> (mb: nat)
    ensures
        settings::ms_text(ms) == labels::decimal(ms as nat) + " ms"@,
        ms > 0 ==> settings::tail_text(ms) == settings::ms_text(ms),
        settings::tail_text(0) == "Off"@,
        settings::description_text(model, true) == model.description,
        settings::description_text(model, false) == model.description + " Downloads "@
            + labels::decimal(mb) + " MB on first use."@,
        1_000_000 * mb <= models::sum_sizes(model.files) < 1_000_000 * mb + 1_000_000,
{
    models::sum_sizes(model.files) / 1_000_000
}

/// The choices for times are in ascending order, and hold the defaults.
pub proof fn choices_ascend(i: int, j: int)
    ensures
        0 <= i < j < settings::tail_choices().len() ==> settings::tail_choices()[i]
            < settings::tail_choices()[j],
        0 <= i < j < settings::hold_choices().len() ==> settings::hold_choices()[i]
            < settings::hold_choices()[j],
        settings::tail_choices().contains(200),
        settings::hold_choices().contains(250),
{
    assert(settings::tail_choices()[2] == 200);
    assert(settings::hold_choices()[1] == 250);
}

/// The keys on offer, each under the name that people know it by.
pub proof fn hotkeys_on_offer()
    ensures
        ({
            let all = settings::hotkey_choices();
            &&& all.len() == 17
            &&& all[0] == ("KEY_RIGHTALT"@, "Right Alt"@)
            &&& all[1] == ("KEY_RIGHTCTRL"@, "Right Ctrl"@)
            &&& all[2] == ("KEY_RIGHTSHIFT"@, "Right Shift"@)
            &&& all[3] == ("KEY_RIGHTMETA"@, "Right Super"@)
            &&& all[4] == ("KEY_COMPOSE"@, "Menu"@)
            &&& all[5] == ("KEY_CAPSLOCK"@, "Caps Lock"@)
            &&& all[6] == ("KEY_SCROLLLOCK"@, "Scroll Lock"@)
            &&& all[7] == ("KEY_PAUSE"@, "Pause"@)
            &&& all[8] == ("KEY_INSERT"@, "Insert"@)
            &&& all[9] == ("KEY_F13"@, "F13"@)
            &&& all[10] == ("KEY_F14"@, "F14"@)
            &&& all[11] == ("KEY_F15"@, "F15"@)
            &&& all[12] == ("KEY_F16"@, "F16"@)
            &&& all[13] == ("KEY_F17"@, "F17"@)
            &&& all[14] == ("KEY_F18"@, "F18"@)
            &&& all[15] == ("KEY_F19"@, "F19"@)
            &&& all[16] == ("KEY_F20"@, "F20"@)
        }),
{
}

} // verus!
