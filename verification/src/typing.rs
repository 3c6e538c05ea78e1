//! Getting text into the focused window, or onto the clipboard.

use vstd::prelude::*;

use crate::labels;
use crate::labels::{digit_char, has_suffix, number, prefix_len};
use crate::paths;
use crate::session::Delivery;
use crate::text;
use crate::text::{chars_of, concat, text_before};

verus! {

/// A text of no length may take this long to type, in milliseconds.
pub const TYPING_LIMIT_MS: u64 = 10_000;

/// Every byte of a text may take this much longer, in milliseconds.
pub const LIMIT_PER_BYTE_MS: u64 = 20;

/// Copying may take this long, in milliseconds.
pub const COPY_LIMIT_MS: u64 = 5_000;

/// A process is looked after this often, in milliseconds.
pub const POLL_MS: u64 = 20;

/// How long typing a text may take, in milliseconds. Generous but bounded: a
/// wedged process must never freeze the engine.
pub open spec fn limit_of(text: Seq<char>) -> nat {
    TYPING_LIMIT_MS as nat + LIMIT_PER_BYTE_MS as nat * paths::bytes_of(text).len()
}

/// How long typing a text may take, in milliseconds.
pub fn typing_limit_ms(text: &str) -> (r: u64)
    requires
        limit_of(text@) <= u64::MAX,
    ensures
        r == limit_of(text@),
{
    let bytes = text.as_bytes();
    let n: u64 = bytes.len() as u64;
    TYPING_LIMIT_MS + LIMIT_PER_BYTE_MS * n
}

/// The digits behind the point of a number of milliseconds in seconds.
pub open spec fn fraction(ms: nat) -> Seq<char> {
    let f = ms % 1000;
    if f == 0 {
        seq![]
    } else if f % 100 == 0 {
        seq!['.', labels::digit(f / 100)]
    } else if f % 10 == 0 {
        seq!['.', labels::digit(f / 100), labels::digit(f / 10 % 10)]
    } else {
        seq!['.', labels::digit(f / 100), labels::digit(f / 10 % 10), labels::digit(f % 10)]
    }
}

/// A duration in seconds, with as many digits as it needs.
pub open spec fn seconds_text(ms: nat) -> Seq<char> {
    labels::decimal(ms / 1000) + fraction(ms) + "s"@
}

/// A duration of a second or more, e.g. "10.26s".
pub fn seconds(ms: u64) -> (r: String)
    requires
        ms >= 1000,
    ensures
        r@ == seconds_text(ms as nat),
{
    let f: u64 = ms % 1000;
    let whole = number(ms / 1000);
    let mut out = whole;
    if f != 0 {
        out.push('.');
        out.push(digit_char(f / 100));
        if f % 100 != 0 {
            out.push(digit_char(f / 10 % 10));
            if f % 10 != 0 {
                out.push(digit_char(f % 10));
            }
        }
    }
    let r = concat(out.as_str(), "s");
    r
}

/// What to do about a process that is being waited for.
pub enum Wait {
    /// It has ended.
    Over,
    /// It has had its time: stop it, and fail with this message.
    Stop(String),
    /// Look again after so many milliseconds.
    Again(u64),
}

/// What to do about a process with a time limit. Times are in nanoseconds.
pub fn wait_step(exited: bool, now: u128, deadline: u128, limit_ms: u64) -> (r: Wait)
    requires
        limit_ms >= 1000,
    ensures
        exited ==> r is Over,
        !exited && now > deadline ==> (r matches Wait::Stop(msg) && msg@
            == "typing took longer than "@ + seconds_text(limit_ms as nat) + " and was stopped"@),
        !exited && now <= deadline ==> r == Wait::Again(POLL_MS),
{
    if exited {
        Wait::Over
    } else if now > deadline {
        let start = concat("typing took longer than ", seconds(limit_ms).as_str());
        Wait::Stop(concat(start.as_str(), " and was stopped"))
    } else {
        Wait::Again(POLL_MS)
    }
}

/// What came of the process that types.
pub enum Typing {
    /// It ended, with success or without.
    Exited { success: bool },
    /// It ran and broke off with an error.
    Broke(String),
    /// It could not be started.
    NotStarted,
}

/// What to do after typing.
pub enum Next {
    /// The text is typed.
    Finished(Delivery),
    /// Copy the text to the clipboard.
    Copy,
    /// Fail with this message.
    Fail(String),
}

/// What to do after typing: where it is unavailable the clipboard is the
/// fallback. If it broke off, some text may already be typed, so it is not
/// also pasted.
pub fn after_typing(typing: Typing) -> (r: Next)
    ensures
        match typing {
            Typing::Exited { success } => if success {
                r == Next::Finished(Delivery::Typed)
            } else {
                r is Copy
            },
            Typing::Broke(err) => r == Next::Fail(err),
            Typing::NotStarted => r is Copy,
        },
{
    match typing {
        Typing::Exited { success } => if success {
            Next::Finished(Delivery::Typed)
        } else {
            Next::Copy
        },
        Typing::Broke(err) => Next::Fail(err),
        Typing::NotStarted => Next::Copy,
    }
}

/// What came of the process that copies.
pub enum Copying {
    /// It could not be started.
    NotStarted(String),
    /// It takes no input.
    NoInput,
    /// It broke off with an error.
    Broke(String),
    /// It ended; the text says how.
    Exited { success: bool, how: String },
}

/// The result of copying, as plain values.
pub open spec fn copied(copying: Copying) -> Result<(), Seq<char>> {
    match copying {
        Copying::NotStarted(err) => Err("wl-copy not available: "@ + err@),
        Copying::NoInput => Err("no stdin"@),
        Copying::Broke(err) => Err(err@),
        Copying::Exited { success, how } => if success {
            Ok(())
        } else {
            Err("wl-copy exited with "@ + how@)
        },
    }
}

/// The result of copying.
pub fn after_copying(copying: Copying) -> (r: Result<Delivery, String>)
    ensures
        match r {
            Ok(d) => d == Delivery::Clipboard && copied(copying) is Ok,
            Err(e) => copied(copying) == Err::<(), Seq<char>>(e@),
        },
{
    match copying {
        Copying::NotStarted(err) => Err(concat("wl-copy not available: ", err.as_str())),
        Copying::NoInput => Err("no stdin".to_owned()),
        Copying::Broke(err) => Err(err),
        Copying::Exited { success, how } => if success {
            Ok(Delivery::Clipboard)
        } else {
            Err(concat("wl-copy exited with ", how.as_str()))
        },
    }
}

/// Whether a file name is that of a Wayland socket.
pub open spec fn is_socket(name: Seq<char>) -> bool {
    labels::starts_with(name, "wayland-"@) && !labels::ends_with(name, ".lock"@)
}

/// Whether a name is the first socket among the names.
pub open spec fn is_first_socket(names: Seq<String>, name: Seq<char>) -> bool {
    &&& is_socket(name)
    &&& exists|i: int| 0 <= i < names.len() && #[trigger] names[i]@ == name
    &&& forall|i: int|
        0 <= i < names.len() && is_socket(#[trigger] names[i]@) ==> !text::text_lt(names[i]@, name)
}

fn socket_name(name: &str) -> (r: bool)
    ensures
        r == is_socket(name@),
{
    let c = chars_of(name);
    prefix_len(&c, "wayland-").is_some() && !has_suffix(&c, ".lock")
}

/// The first socket among the names, in alphabetical order.
pub fn first_socket(names: &Vec<String>) -> (r: Option<String>)
    ensures
        match r {
            Some(s) => is_first_socket(names@, s@),
            None => forall|i: int| 0 <= i < names@.len() ==> !is_socket(#[trigger] names@[i]@),
        },
{
    let mut best: Option<usize> = None;
    let mut i: usize = 0;
    while i < names.len()
        invariant
            i <= names@.len(),
            match best {
                Some(b) => is_first_socket(names@.take(i as int), names@[b as int]@) && b < i,
                None => forall|k: int| 0 <= k < i ==> !is_socket(#[trigger] names@[k]@),
            },
        decreases names@.len() - i,
    {
        let ghost now = names@.take(i + 1);
        assert(now[i as int] == names@[i as int]);
        if socket_name(names[i].as_str()) {
            match best {
                Some(b) => {
                    if text_before(names[i].as_str(), names[b].as_str()) {
                        proof {
                            let new = names@[i as int]@;
                            let old_best = names@[b as int]@;
                            text::lemma_text_lt_irreflexive(new);
                            assert forall|k: int|
                                0 <= k < now.len() && is_socket(
                                    #[trigger] now[k]@,
                                ) implies !text::text_lt(now[k]@, new) by {
                                if k < i {
                                    if text::text_lt(now[k]@, new) {
                                        text::lemma_text_lt_transitive(now[k]@, new, old_best);
                                    }
                                }
                            }
                        }
                        best = Some(i);
                    }
                },
                None => {
                    proof {
                        text::lemma_text_lt_irreflexive(names@[i as int]@);
                    }
                    best = Some(i);
                },
            }
        }
        i = i + 1;
    }
    assert(names@.take(i as int) =~= names@);
    match best {
        Some(b) => Some(names[b].clone()),
        None => None,
    }
}

/// The session's Wayland socket: the one that the environment names, or else
/// the first that is found. `names` are the files of the runtime directory,
/// if it can be read.
pub fn wayland_display(env: Option<String>, names: Option<Vec<String>>) -> (r: Option<String>)
    ensures
        match env {
            Some(d) if d@.len() > 0 => r is Some && r->0@ == d@,
            _ => match (names, r) {
                (None, found) => found is None,
                (Some(all), Some(s)) => is_first_socket(all@, s@),
                (Some(all), None) => forall|i: int|
                    0 <= i < all@.len() ==> !is_socket(#[trigger] all@[i]@),
            },
        },
{
    if let Some(d) = env {
        let c = chars_of(d.as_str());
        if c.len() > 0 {
            return Some(d);
        }
    }
    match names {
        Some(all) => first_socket(&all),
        None => None,
    }
}

/// There is only one first socket: the choice does not depend on the order in
/// which the directory is read.
pub proof fn first_socket_is_unique(names: Seq<String>, a: Seq<char>, b: Seq<char>)
    requires
        is_first_socket(names, a),
        is_first_socket(names, b),
    ensures
        a == b,
{
    let i = choose|i: int| 0 <= i < names.len() && #[trigger] names[i]@ == a;
    let j = choose|j: int| 0 <= j < names.len() && #[trigger] names[j]@ == b;
    text::lemma_text_lt_total(names[i]@, names[j]@);
}

/// A longer text never gets less time, and every text gets some.
pub proof fn longer_texts_get_more_time(a: Seq<char>, b: Seq<char>)
    requires
        paths::bytes_of(a).len() <= paths::bytes_of(b).len(),
    ensures
        TYPING_LIMIT_MS <= limit_of(a) <= limit_of(b),
{
}

/// A text may take ten seconds, and twenty milliseconds more for each byte.
pub proof fn texts_get_time_by_their_bytes(a: Seq<char>)
    ensures
        limit_of(a) == 10_000 + 20 * vstd::utf8::encode_utf8(a).len(),
{
}

/// A duration is told to the millisecond: whole seconds, and behind the point
/// just the digits that the rest needs.
pub proof fn durations_are_told_exactly(ms: nat)
    ensures
        ({
            let whole = labels::decimal(ms / 1000);
            let f = fraction(ms);
            &&& seconds_text(ms) == whole + f + "s"@
            &&& f.len() == 0 <==> ms % 1000 == 0
            &&& f.len() > 0 ==> 2 <= f.len() <= 4 && f[0] == '.' && f.last() != '0'
            &&& f.len() == 2 ==> labels::value(f.skip(1)) * 100 == ms % 1000
            &&& f.len() == 3 ==> labels::value(f.skip(1)) * 10 == ms % 1000
            &&& f.len() == 4 ==> labels::value(f.skip(1)) == ms % 1000
        }),
{
    reveal_with_fuel(labels::value, 4);
    let f = fraction(ms);
    let d = f.skip(1);
    let e = d.drop_last();
    let g = e.drop_last();
    if f.len() == 2 {
        assert(d =~= seq![f[1]]);
        assert(e =~= Seq::<char>::empty());
    } else if f.len() == 3 {
        assert(d =~= seq![f[1], f[2]]);
        assert(e =~= seq![f[1]]);
        assert(g =~= Seq::<char>::empty());
    } else if f.len() == 4 {
        assert(d =~= seq![f[1], f[2], f[3]]);
        assert(e =~= seq![f[1], f[2]]);
        assert(g =~= seq![f[1]]);
        assert(g.drop_last() =~= Seq::<char>::empty());
    }
}

/// Copying has worked exactly if the process ended with success; every failure
/// says what it was.
pub proof fn copying_works_or_says_why(copying: Copying)
    ensures
        copied(copying) is Ok <==> (copying matches Copying::Exited { success, .. } && success),
        copying matches Copying::NotStarted(err) ==> copied(copying) == Err::<(), Seq<char>>(
            "wl-copy not available: "@ + err@,
        ),
        copying matches Copying::Broke(err) ==> copied(copying) == Err::<(), Seq<char>>(err@),
        copying is NoInput ==> copied(copying) == Err::<(), Seq<char>>("no stdin"@),
        copying matches Copying::Exited { success, how } ==> success || copied(copying) == Err::<
            (),
            Seq<char>,
        >("wl-copy exited with "@ + how@),
{
}

/// A socket is told by its name: it begins with `wayland-`, and no lock file
/// is one.
pub proof fn sockets_are_told_by_their_names(number: Seq<char>)
    ensures
        is_socket("wayland-"@ + number) <==> !labels::ends_with("wayland-"@ + number, ".lock"@),
        is_socket(number) ==> number == "wayland-"@ + number.skip("wayland-"@.len() as int),
        !is_socket(number + ".lock"@),
{
    labels::beginnings_and_ends(number, "wayland-"@, number);
    labels::beginnings_and_ends(number, ".lock"@, number);
}

/// The first socket is a socket among the names, and every other socket among
/// them comes after it in the order of texts.
pub proof fn other_sockets_come_later(names: Seq<String>, name: Seq<char>, i: int)
    requires
        is_first_socket(names, name),
        0 <= i < names.len(),
        is_socket(names[i]@),
    ensures
        is_socket(name),
        exists|k: int| 0 <= k < names.len() && #[trigger] names[k]@ == name,
        names[i]@ == name || text::text_lt(name, names[i]@),
{
    text::lemma_text_lt_total(name, names[i]@);
}

} // verus!
