//! Fetching a model's files: which to fetch, in which ranges, and when to try
//! again or give up.
//!
//! A download is driven by [`Download::step`]: it says what to do next, and is
//! told what came of it.

use vstd::prelude::*;

use crate::labels;
use crate::labels::number;
use crate::models;
use crate::models::ModelInfo;
use crate::text::concat;

verus! {

/// Bytes fetched per HTTP request. Each request has a body timeout, so a
/// stalled connection costs at most one chunk's timeout before a retry.
pub const CHUNK: u64 = 33_554_432;

/// So many failures in a row, and the download is given up.
pub const RETRIES: u32 = 6;

/// What the download waits for.
#[derive(Clone, Copy, Debug, PartialEq, Eq, Structural)]
pub enum Phase {
    /// The size of the finished file.
    File,
    /// The size of an earlier, unfinished download.
    Part,
    /// The unfinished file, cut to size.
    Opening,
    /// A range of bytes.
    Fetching,
    /// The size of the unfinished file after a failure.
    Measuring,
    /// The end of a pause.
    Resting,
    /// The finished file in its place.
    Installing,
    /// Nothing more.
    Over,
}

/// What came of the last order.
pub enum Outcome {
    /// The size of a file, if it is there.
    Size(Option<u64>),
    /// The unfinished file is open.
    Opened,
    /// So many bytes came, and the request is over.
    Got(u64),
    /// The request failed.
    Broke(String),
    /// The pause is over.
    Rested,
    /// The finished file is in its place.
    Installed,
}

/// What to do next.
pub enum Order {
    /// Look how large the finished file is.
    CheckFile(&'static str),
    /// Look how large the unfinished file is.
    CheckPart(&'static str),
    /// Open the unfinished file for appending, cut to this size.
    OpenPart { name: &'static str, have: u64 },
    /// Fetch the bytes from `from` to `to`, both included, and append them.
    Fetch { from: u64, to: u64 },
    /// Wait so many seconds.
    Rest(u64),
    /// Put the finished file in its place.
    Install(&'static str),
    /// The model is complete.
    Complete,
    /// The download is given up.
    GiveUp(String),
}

/// What came of the last order, as plain values.
pub enum Came {
    Size(Option<u64>),
    Opened,
    Got(u64),
    Broke(Seq<char>),
    Rested,
    Installed,
}

/// What to do next, as plain values.
pub enum Told {
    CheckFile(Seq<char>),
    CheckPart(Seq<char>),
    OpenPart(Seq<char>, u64),
    Fetch(u64, u64),
    Rest(u64),
    Install(Seq<char>),
    Complete,
    GiveUp(Seq<char>),
}

impl View for Outcome {
    type V = Came;

    open spec fn view(&self) -> Came {
        match *self {
            Outcome::Size(s) => Came::Size(s),
            Outcome::Opened => Came::Opened,
            Outcome::Got(n) => Came::Got(n),
            Outcome::Broke(why) => Came::Broke(why@),
            Outcome::Rested => Came::Rested,
            Outcome::Installed => Came::Installed,
        }
    }
}

impl View for Order {
    type V = Told;

    open spec fn view(&self) -> Told {
        match *self {
            Order::CheckFile(name) => Told::CheckFile(name@),
            Order::CheckPart(name) => Told::CheckPart(name@),
            Order::OpenPart { name, have } => Told::OpenPart(name@, have),
            Order::Fetch { from, to } => Told::Fetch(from, to),
            Order::Rest(secs) => Told::Rest(secs),
            Order::Install(name) => Told::Install(name@),
            Order::Complete => Told::Complete,
            Order::GiveUp(why) => Told::GiveUp(why@),
        }
    }
}

/// A download under way.
pub struct Transfer {
    pub files: Seq<(Seq<char>, u64)>,
    pub index: int,
    pub done: u64,
    pub have: u64,
    pub failures: u32,
    pub why: Seq<char>,
    pub phase: Phase,
}

/// The last byte of the next range of a file.
pub open spec fn range_end(have: u64, size: u64) -> u64 {
    (if have + CHUNK < size {
        have + CHUNK - 1
    } else {
        size - 1
    }) as u64
}

/// The pause after so many failures in a row: two to that power, in seconds.
pub open spec fn pause_after(failures: u32) -> u64 {
    vstd::arithmetic::power2::pow2(failures as nat) as u64
}

impl Transfer {
    /// The file being worked on.
    pub open spec fn name(self) -> Seq<char> {
        self.files[self.index].0
    }

    /// The size it will have.
    pub open spec fn size(self) -> u64 {
        self.files[self.index].1
    }

    /// Every phase but the last works on a file; what is done so far are the
    /// files before it.
    pub open spec fn inv(self) -> bool {
        &&& 0 <= self.index <= self.files.len()
        &&& !(self.phase is Over) ==> self.index < self.files.len()
        &&& models::sum_sizes(self.files) <= u64::MAX
        &&& self.done == models::sum_sizes(self.files.take(self.index))
        &&& self.failures < RETRIES
        &&& self.phase is Fetching ==> self.have < self.size()
        &&& self.phase is Opening ==> self.have <= self.size()
        &&& self.phase is Resting ==> self.failures > 0
    }

    /// The next file, if there is one.
    pub open spec fn next_file(self) -> (Transfer, Told) {
        if self.index < self.files.len() {
            (Transfer { phase: Phase::File, ..self }, Told::CheckFile(self.name()))
        } else {
            (Transfer { phase: Phase::Over, ..self }, Told::Complete)
        }
    }

    /// The current file is complete.
    pub open spec fn file_done(self) -> (Transfer, Told) {
        Transfer {
            index: self.index + 1,
            done: (self.done + self.size()) as u64,
            ..self
        }.next_file()
    }

    /// The next range, or the end of the file.
    pub open spec fn next_range(self) -> (Transfer, Told) {
        if self.have < self.size() {
            (
                Transfer { phase: Phase::Fetching, ..self },
                Told::Fetch(self.have, range_end(self.have, self.size())),
            )
        } else {
            (Transfer { phase: Phase::Installing, ..self }, Told::Install(self.name()))
        }
    }

    /// A range did not come in full: the unfinished file is measured, so that
    /// the next attempt resumes from whatever arrived.
    pub open spec fn broken(self, why: Seq<char>) -> (Transfer, Told) {
        (Transfer { phase: Phase::Measuring, why, ..self }, Told::CheckPart(self.name()))
    }

    /// Whether an outcome is the one that the download waits for.
    pub open spec fn expects(self, came: Came) -> bool {
        match came {
            Came::Size(found) => self.phase is File || self.phase is Part || (self.phase
                is Measuring && found is Some),
            Came::Opened => self.phase is Opening,
            Came::Got(_) | Came::Broke(_) => self.phase is Fetching,
            Came::Rested => self.phase is Resting,
            Came::Installed => self.phase is Installing,
        }
    }

    /// What an outcome leads to.
    pub open spec fn step(self, came: Came) -> (Transfer, Told) {
        match came {
            Came::Size(found) => match self.phase {
                Phase::File => if found == Some(self.size()) {
                    self.file_done()
                } else {
                    (Transfer { phase: Phase::Part, ..self }, Told::CheckPart(self.name()))
                },
                Phase::Part => {
                    let have = match found {
                        Some(n) => if n > self.size() {
                            0
                        } else {
                            n
                        },
                        None => 0,
                    };
                    (
                        Transfer { phase: Phase::Opening, have, failures: 0, ..self },
                        Told::OpenPart(self.name(), have),
                    )
                },
                _ => {
                    let have = found->0;
                    let failures = (self.failures + 1) as u32;
                    if failures >= RETRIES {
                        (
                            Transfer { phase: Phase::Over, have, ..self },
                            Told::GiveUp("Download failed: "@ + self.why),
                        )
                    } else {
                        (
                            Transfer { phase: Phase::Resting, have, failures, ..self },
                            Told::Rest(pause_after(failures)),
                        )
                    }
                },
            },
            Came::Opened => self.next_range(),
            Came::Got(n) => if n == range_end(self.have, self.size()) - self.have + 1 {
                Transfer { have: (self.have + n) as u64, failures: 0, ..self }.next_range()
            } else {
                self.broken("short read ("@ + labels::decimal(n as nat) + " bytes)"@)
            },
            Came::Broke(why) => self.broken(why),
            Came::Rested => self.next_range(),
            Came::Installed => self.file_done(),
        }
    }
}

/// The download of a model's files.
pub struct Download {
    files: Vec<(&'static str, u64)>,
    index: usize,
    done: u64,
    have: u64,
    failures: u32,
    why: String,
    phase: Phase,
}

impl View for Download {
    type V = Transfer;

    closed spec fn view(&self) -> Transfer {
        Transfer {
            files: models::file_views(self.files@),
            index: self.index as int,
            done: self.done,
            have: self.have,
            failures: self.failures,
            why: self.why@,
            phase: self.phase,
        }
    }
}

/// Two to a small power.
fn pause_secs(failures: u32) -> (r: u64)
    requires
        failures < RETRIES,
    ensures
        r == pause_after(failures),
{
    proof {
        vstd::arithmetic::power2::lemma2_to64();
    }
    if failures == 0 {
        1
    } else if failures == 1 {
        2
    } else if failures == 2 {
        4
    } else if failures == 3 {
        8
    } else if failures == 4 {
        16
    } else {
        32
    }
}

impl Download {
    /// A download of a model's files, and its first order.
    pub fn new(model: &ModelInfo) -> (r: (Download, Order))
        requires
            models::sum_sizes(model@.files) <= u64::MAX,
        ensures
            r.0@.inv(),
            r.0@.files == model@.files,
            r.0@.index == 0,
            ({
                let start = Transfer {
                    files: model@.files,
                    index: 0,
                    done: 0,
                    have: 0,
                    failures: 0,
                    why: seq![],
                    phase: Phase::Over,
                };
                (r.0@, r.1@) == start.next_file()
            }),
    {
        let mut files: Vec<(&'static str, u64)> = Vec::new();
        let mut i: usize = 0;
        let ghost all = models::file_views(model.files@);
        while i < model.files.len()
            invariant
                i <= model.files@.len(),
                all == models::file_views(model.files@),
                models::file_views(files@) == all.take(i as int),
            decreases model.files@.len() - i,
        {
            let ghost before = models::file_views(files@);
            files.push((model.files[i].0, model.files[i].1));
            assert(models::file_views(files@) == before.push(all[i as int]));
            i = i + 1;
        }
        assert(all.take(i as int) == all);
        let mut d = Download {
            files,
            index: 0,
            done: 0,
            have: 0,
            failures: 0,
            why: String::new(),
            phase: Phase::Over,
        };
        let order = d.next_file();
        (d, order)
    }

    fn next_file(&mut self) -> (r: Order)
        requires
            old(self)@.index <= old(self)@.files.len(),
        ensures
            (final(self)@, r@) == old(self)@.next_file(),
    {
        if self.index < self.files.len() {
            self.phase = Phase::File;
            Order::CheckFile(self.files[self.index].0)
        } else {
            self.phase = Phase::Over;
            Order::Complete
        }
    }

    fn file_done(&mut self) -> (r: Order)
        requires
            old(self)@.inv(),
            old(self)@.index < old(self)@.files.len(),
        ensures
            (final(self)@, r@) == old(self)@.file_done(),
    {
        proof {
            let t = self@;
            models::lemma_sum_prefix(t.files, t.index + 1);
            assert(t.files.take(t.index + 1).drop_last() == t.files.take(t.index));
        }
        assert(self.index < self.files.len());
        self.done = self.done + self.files[self.index].1;
        self.index = self.index + 1;
        self.next_file()
    }

    fn next_range(&mut self) -> (r: Order)
        requires
            old(self)@.index < old(self)@.files.len(),
        ensures
            (final(self)@, r@) == old(self)@.next_range(),
    {
        let (name, size) = self.files[self.index];
        if self.have < size {
            let to = self.last_byte(size);
            self.phase = Phase::Fetching;
            Order::Fetch { from: self.have, to }
        } else {
            self.phase = Phase::Installing;
            Order::Install(name)
        }
    }

    fn last_byte(&self, size: u64) -> (r: u64)
        requires
            self@.have < size,
        ensures
            r == range_end(self@.have, size),
            r >= self@.have,
            r < size,
    {
        if size - self.have > CHUNK {
            self.have + (CHUNK - 1)
        } else {
            size - 1
        }
    }

    fn broken(&mut self, why: String) -> (r: Order)
        requires
            old(self)@.index < old(self)@.files.len(),
        ensures
            (final(self)@, r@) == old(self)@.broken(why@),
    {
        self.why = why;
        self.phase = Phase::Measuring;
        Order::CheckPart(self.files[self.index].0)
    }

    /// Whether an outcome is the one that the download waits for.
    pub fn awaits(&self, outcome: &Outcome) -> (r: bool)
        ensures
            r == self@.expects(outcome@),
    {
        match outcome {
            Outcome::Size(found) => self.phase == Phase::File || self.phase == Phase::Part || (
            self.phase == Phase::Measuring && found.is_some()),
            Outcome::Opened => self.phase == Phase::Opening,
            Outcome::Got(_) => self.phase == Phase::Fetching,
            Outcome::Broke(_) => self.phase == Phase::Fetching,
            Outcome::Rested => self.phase == Phase::Resting,
            Outcome::Installed => self.phase == Phase::Installing,
        }
    }

    /// What went wrong with the last range that did not come in full.
    pub fn why(&self) -> (r: &str)
        ensures
            r@ == self@.why,
    {
        self.why.as_str()
    }

    /// Takes the outcome of the last order, and gives the next.
    pub fn step(&mut self, outcome: Outcome) -> (r: Order)
        requires
            old(self)@.inv(),
            old(self)@.expects(outcome@),
        ensures
            (final(self)@, r@) == old(self)@.step(outcome@),
            final(self)@.inv(),
    {
        proof {
            step_keeps_the_download_valid(self@, outcome@);
        }
        match outcome {
            Outcome::Size(found) => {
                let (name, size) = self.files[self.index];
                if self.phase == Phase::File {
                    let complete = match found {
                        Some(n) => n == size,
                        None => false,
                    };
                    if complete {
                        return self.file_done();
                    }
                    self.phase = Phase::Part;
                    Order::CheckPart(name)
                } else if self.phase == Phase::Part {
                    // Resume a previous partial download.
                    let have: u64 = match found {
                        Some(n) => if n > size {
                            0
                        } else {
                            n
                        },
                        None => 0,
                    };
                    self.have = have;
                    self.failures = 0;
                    self.phase = Phase::Opening;
                    Order::OpenPart { name, have }
                } else {
                    self.have = found.unwrap();
                    if self.failures + 1 >= RETRIES {
                        self.phase = Phase::Over;
                        Order::GiveUp(concat("Download failed: ", self.why.as_str()))
                    } else {
                        self.failures = self.failures + 1;
                        self.phase = Phase::Resting;
                        Order::Rest(pause_secs(self.failures))
                    }
                }
            },
            Outcome::Opened => self.next_range(),
            Outcome::Got(n) => {
                let size: u64 = self.files[self.index].1;
                let to = self.last_byte(size);
                if n == to - self.have + 1 {
                    self.have = self.have + n;
                    self.failures = 0;
                    self.next_range()
                } else {
                    self.broken(
                        concat(concat("short read (", number(n).as_str()).as_str(), " bytes)"),
                    )
                }
            },
            Outcome::Broke(why) => self.broken(why),
            Outcome::Rested => self.next_range(),
            Outcome::Installed => self.file_done(),
        }
    }

    /// While a range is being fetched: how many bytes of the model are there,
    /// when so many of the range have come.
    pub fn bytes_so_far(&self, got: u64) -> (r: u64)
        ensures
            r == (if self@.done + self@.have + got <= u64::MAX {
                self@.done + self@.have + got
            } else {
                u64::MAX as int
            }),
    {
        self.done.saturating_add(self.have).saturating_add(got)
    }
}

/// While a range is being fetched, no more bytes are there than the model has,
/// however many of the range have come.
pub proof fn progress_stays_within_the_model(t: Transfer, got: u64)
    requires
        t.inv(),
        t.phase is Fetching,
        got <= range_end(t.have, t.size()) - t.have + 1,
    ensures
        t.done + t.have + got <= t.done + t.size() <= models::sum_sizes(t.files),
{
    models::lemma_sum_prefix(t.files, t.index + 1);
    assert(t.files.take(t.index + 1).drop_last() == t.files.take(t.index));
}

/// The address of a file of a model.
pub open spec fn url_of(repo: Seq<char>, revision: Seq<char>, name: Seq<char>) -> Seq<char> {
    "https://huggingface.co/"@ + repo + "/resolve/"@ + revision + "/"@ + name
}

/// The address of a file of a model, at its pinned revision.
pub fn file_url(model: &ModelInfo, name: &str) -> (r: String)
    ensures
        r@ == url_of(model@.repo, model@.revision, name@),
{
    let a = concat("https://huggingface.co/", model.repo);
    let b = concat(a.as_str(), "/resolve/");
    let c = concat(b.as_str(), model.revision);
    let d = concat(c.as_str(), "/");
    concat(d.as_str(), name)
}

/// The value of the header that asks for a range of bytes.
pub open spec fn range_text(from: u64, to: u64) -> Seq<char> {
    "bytes="@ + labels::decimal(from as nat) + "-"@ + labels::decimal(to as nat)
}

/// The value of the header that asks for a range of bytes.
pub fn range_header(from: u64, to: u64) -> (r: String)
    ensures
        r@ == range_text(from, to),
{
    let a = concat("bytes=", number(from).as_str());
    let b = concat(a.as_str(), "-");
    concat(b.as_str(), number(to).as_str())
}

/// A step keeps the download valid.
pub proof fn step_keeps_the_download_valid(t: Transfer, came: Came)
    requires
        t.inv(),
        t.expects(came),
    ensures
        t.step(came).0.inv(),
        t.step(came).0.files == t.files,
{
    let (next, told) = t.step(came);
    if next.index == t.index + 1 {
        models::lemma_sum_prefix(t.files, t.index + 1);
        assert(t.files.take(t.index + 1).drop_last() == t.files.take(t.index));
    }
}

/// Every range that is fetched starts where the file ends so far, lies within
/// the file, and is no longer than a chunk.
pub proof fn ranges_lie_within_the_file(t: Transfer, came: Came, from: u64, to: u64)
    requires
        t.inv(),
        t.expects(came),
        t.step(came).1 == Told::Fetch(from, to),
    ensures
        from == t.step(came).0.have,
        from <= to < t.step(came).0.size(),
        to - from < CHUNK,
{
}

/// A file is only put in its place once none of its bytes are missing.
pub proof fn files_are_installed_complete(t: Transfer, came: Came)
    requires
        t.inv(),
        t.expects(came),
        t.step(came).1 is Install,
    ensures
        t.step(came).0.have >= t.step(came).0.size(),
        t.step(came).1 == Told::Install(t.step(came).0.name()),
{
}

/// A range that came in full moves the download on by exactly that range.
pub proof fn full_ranges_advance(t: Transfer)
    requires
        t.inv(),
        t.phase is Fetching,
    ensures
        ({
            let n = (range_end(t.have, t.size()) - t.have + 1) as u64;
            let next = t.step(Came::Got(n)).0;
            &&& 0 < n <= CHUNK
            &&& next.have == t.have + n
            &&& next.failures == 0
            &&& next.have <= t.size()
        }),
{
}

/// The download is given up only after the last of its retries in a row.
pub proof fn given_up_after_retries(t: Transfer, came: Came)
    requires
        t.inv(),
        t.expects(came),
    ensures
        t.step(came).1 is GiveUp <==> t.phase is Measuring && t.failures == RETRIES - 1,
{
}

/// Whatever arrived of a broken range is kept: the next range starts there.
pub proof fn broken_ranges_are_resumed(t: Transfer, why: Seq<char>, len: u64)
    requires
        t.inv(),
        t.phase is Fetching,
        t.failures < RETRIES - 1,
        len < t.size(),
    ensures
        ({
            let a = t.step(Came::Broke(why));
            let b = a.0.step(Came::Size(Some(len)));
            let c = b.0.step(Came::Rested);
            &&& a.1 == Told::CheckPart(t.name())
            &&& b.1 == Told::Rest(pause_after((t.failures + 1) as u32))
            &&& c.1 == Told::Fetch(len, range_end(len, t.size()))
        }),
{
}

/// When the model is complete, all its bytes are accounted for.
pub proof fn complete_means_all_bytes(t: Transfer, came: Came)
    requires
        t.inv(),
        t.expects(came),
        t.step(came).1 is Complete,
    ensures
        t.step(came).0.index == t.files.len(),
        t.step(came).0.done == models::sum_sizes(t.files),
{
    step_keeps_the_download_valid(t, came);
}

/// A file that is there with its expected size is not fetched again.
pub proof fn complete_files_are_not_fetched(t: Transfer)
    requires
        t.inv(),
        t.phase is File,
    ensures
        t.step(Came::Size(Some(t.size()))).0.index == t.index + 1,
{
}

/// What the next order is about: never another file than the current one, and
/// the file after it only once the current one is there in full.
pub proof fn files_are_taken_in_order(t: Transfer, came: Came)
    requires
        t.inv(),
        t.expects(came),
    ensures
        ({
            let (next, told) = t.step(came);
            let there = (t.phase is File && came == Came::Size(Some(t.size()))) || t.phase
                is Installing;
            &&& there ==> next.index == t.index + 1 && next.done == t.done + t.size()
            &&& !there ==> next.index == t.index && next.done == t.done
            &&& there && next.index < t.files.len() ==> told == Told::CheckFile(
                t.files[next.index].0,
            )
            &&& there && next.index == t.files.len() ==> told is Complete
            &&& !there ==> !(told is CheckFile) && !(told is Complete)
        }),
{
    if (t.phase is File && came == Came::Size(Some(t.size()))) || t.phase is Installing {
        models::lemma_sum_prefix(t.files, t.index + 1);
        assert(t.files.take(t.index + 1).drop_last() == t.files.take(t.index));
    }
}

/// A file that is missing or has another size is fetched: what an earlier
/// attempt left of it is looked at, and kept if it is no longer than the file.
pub proof fn earlier_attempts_are_resumed(t: Transfer, found: Option<u64>)
    requires
        t.inv(),
    ensures
        t.phase is File && found != Some(t.size()) ==> t.step(Came::Size(found)).1
            == Told::CheckPart(t.name()),
        t.phase is Part ==> ({
            let (next, told) = t.step(Came::Size(found));
            &&& next.failures == 0
            &&& told == Told::OpenPart(t.name(), next.have)
            &&& found matches Some(n) ==> next.have == if n <= t.size() {
                n
            } else {
                0
            }
            &&& found is None ==> next.have == 0
        }),
{
}

/// Whenever a range can be fetched, the next one is: from where the file ends
/// so far, for a whole chunk or to the end of the file; a file that is complete
/// is put in its place.
pub proof fn every_missing_byte_is_fetched(t: Transfer, came: Came)
    requires
        t.inv(),
        t.expects(came),
        t.phase is Opening || t.phase is Resting || (t.phase is Fetching && came == Came::Got(
            (range_end(t.have, t.size()) - t.have + 1) as u64,
        )),
    ensures
        ({
            let (next, told) = t.step(came);
            let size = t.size();
            &&& next.have == if t.phase is Fetching {
                range_end(t.have, size) + 1
            } else {
                t.have as int
            }
            &&& next.have < size ==> (told matches Told::Fetch(from, to) && from == next.have && (to
                + 1 == size || (to + 1 == from + 33_554_432 && to + 1 < size)) && to + 1 - from
                <= 33_554_432)
            &&& next.have >= size ==> told == Told::Install(t.name())
            &&& next.failures == if t.phase is Fetching {
                0
            } else {
                t.failures
            }
        }),
{
}

/// A range that broke or came up short is not counted: the file is measured,
/// and the reason is kept for when the download is given up.
pub proof fn short_ranges_are_not_counted(t: Transfer, n: u64, why: Seq<char>)
    requires
        t.inv(),
        t.phase is Fetching,
        n != range_end(t.have, t.size()) - t.have + 1,
    ensures
        ({
            let short = t.step(Came::Got(n));
            let broke = t.step(Came::Broke(why));
            &&& short.1 == Told::CheckPart(t.name()) && broke.1 == Told::CheckPart(t.name())
            &&& short.0.why == "short read ("@ + labels::decimal(n as nat) + " bytes)"@
            &&& broke.0.why == why
            &&& short.0.have == t.have && broke.0.have == t.have
            &&& short.0.failures == t.failures && broke.0.failures == t.failures
            &&& short.0.phase is Measuring && broke.0.phase is Measuring
        }),
{
}

/// After a failure the file is as long as it was measured, and one more failure
/// is counted: the sixth in a row ends the download with its reason, and before
/// it each pause is twice as long as the one before, from two seconds on.
pub proof fn failures_are_counted(t: Transfer, len: u64)
    requires
        t.inv(),
        t.phase is Measuring,
    ensures
        ({
            let (next, told) = t.step(Came::Size(Some(len)));
            &&& next.have == len
            &&& t.failures == 5 ==> told == Told::GiveUp("Download failed: "@ + t.why)
                && next.phase is Over
            &&& t.failures < 5 ==> next.failures == t.failures + 1 && next.phase is Resting
            &&& t.failures == 0 ==> told == Told::Rest(2)
            &&& t.failures == 1 ==> told == Told::Rest(4)
            &&& t.failures == 2 ==> told == Told::Rest(8)
            &&& t.failures == 3 ==> told == Told::Rest(16)
            &&& t.failures == 4 ==> told == Told::Rest(32)
        }),
{
    vstd::arithmetic::power2::lemma2_to64();
}

/// The download waits for the outcome of its last order: for sizes while it
/// looks, for the open file, for a range, for the end of a pause, for the
/// finished file.
pub proof fn orders_await_their_outcomes(t: Transfer, came: Came)
    requires
        t.inv(),
    ensures
        t.phase is File || t.phase is Part ==> (t.expects(came) <==> came is Size),
        t.phase is Measuring ==> (t.expects(came) <==> (came matches Came::Size(n) && n is Some)),
        t.phase is Opening ==> (t.expects(came) <==> came is Opened),
        t.phase is Fetching ==> (t.expects(came) <==> came is Got || came is Broke),
        t.phase is Resting ==> (t.expects(came) <==> came is Rested),
        t.phase is Installing ==> (t.expects(came) <==> came is Installed),
        t.phase is Over ==> !t.expects(came),
{
}

/// What the download waits for is the outcome of the order that it gave.
pub proof fn orders_and_phases_agree(t: Transfer, came: Came)
    requires
        t.inv(),
        t.expects(came),
    ensures
        ({
            let (next, told) = t.step(came);
            match told {
                Told::CheckFile(_) => next.phase is File,
                Told::CheckPart(_) => next.phase is Part || next.phase is Measuring,
                Told::OpenPart(_, _) => next.phase is Opening,
                Told::Fetch(_, _) => next.phase is Fetching,
                Told::Rest(_) => next.phase is Resting,
                Told::Install(_) => next.phase is Installing,
                Told::Complete | Told::GiveUp(_) => next.phase is Over,
            }
        }),
{
}

/// A file's address names its model's repository, the pinned revision and the
/// file, each in full.
pub proof fn addresses_are_pinned(repo: Seq<char>, revision: Seq<char>, name: Seq<char>)
    ensures
        ({
            let url = url_of(repo, revision, name);
            let site = "https://huggingface.co/"@;
            let way = "/resolve/"@;
            &&& url.len() == site.len() + repo.len() + way.len() + revision.len() + 1 + name.len()
            &&& url.take(site.len() as int) == site
            &&& url.skip(site.len() as int).take(repo.len() as int) == repo
            &&& url.skip((site.len() + repo.len()) as int).take(way.len() as int) == way
            &&& url.skip((site.len() + repo.len() + way.len()) as int).take(revision.len() as int)
                == revision
            &&& url[url.len() - name.len() - 1] == '/'
            &&& url.skip(url.len() - name.len()) == name
        }),
{
    reveal_strlit("/");
    let url = url_of(repo, revision, name);
    let site = "https://huggingface.co/"@;
    let way = "/resolve/"@;
    assert(url.take(site.len() as int) =~= site);
    assert(url.skip(site.len() as int).take(repo.len() as int) =~= repo);
    assert(url.skip((site.len() + repo.len()) as int).take(way.len() as int) =~= way);
    assert(url.skip((site.len() + repo.len() + way.len()) as int).take(revision.len() as int)
        =~= revision);
    assert(url.skip(url.len() - name.len()) =~= name);
}

/// A range is asked for by its first and its last byte, each in full.
pub proof fn ranges_are_asked_for_in_full(from: u64, to: u64)
    ensures
        ({
            let header = range_text(from, to);
            let first = labels::decimal(from as nat);
            let last = labels::decimal(to as nat);
            &&& header.len() == 6 + first.len() + 1 + last.len()
            &&& header.take(6) == "bytes="@
            &&& header.skip(6).take(first.len() as int) == first
            &&& header[6 + first.len() as int] == '-'
            &&& header.skip(6 + first.len() as int + 1) == last
        }),
{
    reveal_strlit("bytes=");
    reveal_strlit("-");
    let header = range_text(from, to);
    let first = labels::decimal(from as nat);
    let last = labels::decimal(to as nat);
    assert(header.take(6) =~= "bytes="@);
    assert(header.skip(6).take(first.len() as int) =~= first);
    assert(header.skip(6 + first.len() as int + 1) =~= last);
}

} // verus!
