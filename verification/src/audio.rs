//! Captured audio: its rate, its framing into samples, and the feedback tones.

use vstd::prelude::*;

verus! {

/// Samples per second that the speech model takes.
pub const TARGET_RATE: u32 = 16_000;

/// Samples at the start of a recording that the start tone may have reached:
/// 1.4 times its 125 ms. They are blanked so that the model never hears it.
pub const START_BLANK: usize = 2_800;

/// Samples of silence after a clip; the model drops trailing words on tight
/// clips.
pub const TAIL_PADDING: usize = 4_000;

/// Samples per report of the level meter, twenty reports a second.
pub const METER_WINDOW: usize = 800;

/// The feedback tones.
#[derive(Clone, Copy, Debug, PartialEq, Eq, Structural)]
pub enum Tone {
    Start,
    Stop,
    Cancel,
    Error,
}

/// The bits of the sample that four bytes stand for, lowest byte first.
pub open spec fn sample_bits(a: u8, b: u8, c: u8, d: u8) -> u32 {
    (a + 0x100 * b + 0x1_0000 * c + 0x100_0000 * d) as u32
}

/// The samples that are whole in a stream of bytes.
pub open spec fn samples_of(bytes: Seq<u8>) -> Seq<u32> {
    Seq::new(
        bytes.len() / 4,
        |i: int| sample_bits(bytes[4 * i], bytes[4 * i + 1], bytes[4 * i + 2], bytes[4 * i + 3]),
    )
}

/// The bytes of a stream that are no whole sample yet.
pub open spec fn rest_of(bytes: Seq<u8>) -> Seq<u8> {
    bytes.skip((bytes.len() / 4 * 4) as int)
}

/// Cuts the recorder's bytes into samples, however they arrive.
pub struct Framer {
    carry: Vec<u8>,
}

impl View for Framer {
    type V = Seq<u8>;

    closed spec fn view(&self) -> Seq<u8> {
        self.carry@
    }
}

impl Framer {
    #[verifier::type_invariant]
    spec fn well_formed(&self) -> bool {
        self.carry@.len() < 4
    }

    /// A framer at the start of a stream.
    pub fn new() -> (r: Framer)
        ensures
            r@ == Seq::<u8>::empty(),
    {
        Framer { carry: Vec::new() }
    }

    /// Takes the next bytes and gives the bits of the samples that are whole
    /// now.
    pub fn feed(&mut self, bytes: &[u8]) -> (r: Vec<u32>)
        ensures
            r@ == samples_of(old(self)@ + bytes@),
            final(self)@ == rest_of(old(self)@ + bytes@),
            final(self)@.len() < 4,
    {
        proof {
            use_type_invariant(&*self);
        }
        let ghost start = self@;
        let ghost all = start + bytes@;
        let mut carry: Vec<u8> = Vec::new();
        std::mem::swap(&mut carry, &mut self.carry);
        let mut out: Vec<u32> = Vec::new();
        let mut i: usize = 0;
        assert(start + bytes@.take(0) =~= start);
        assert(samples_of(start) =~= Seq::<u32>::empty());
        assert(rest_of(start) =~= start);
        while i < bytes.len()
            invariant
                i <= bytes@.len(),
                carry@ == rest_of(start + bytes@.take(i as int)),
                out@ == samples_of(start + bytes@.take(i as int)),
            decreases bytes@.len() - i,
        {
            let ghost before = start + bytes@.take(i as int);
            let ghost after = start + bytes@.take(i + 1);
            assert(after =~= before.push(bytes@[i as int]));
            assert(carry@.len() == before.len() % 4);
            carry.push(bytes[i]);
            if carry.len() == 4 {
                let word: u32 = carry[0] as u32 + 0x100 * carry[1] as u32 + 0x1_0000
                    * carry[2] as u32 + 0x100_0000 * carry[3] as u32;
                out.push(word);
                carry = Vec::new();
                proof {
                    let n = before.len() / 4;
                    assert(before.len() == 4 * n + 3);
                    assert(after.len() == 4 * (n + 1));
                    assert(samples_of(after) =~= samples_of(before).push(word));
                    assert(rest_of(after) =~= Seq::<u8>::empty());
                }
            } else {
                proof {
                    assert(after.len() / 4 == before.len() / 4);
                    assert(samples_of(after) =~= samples_of(before));
                    assert(rest_of(after) =~= rest_of(before).push(bytes@[i as int]));
                }
            }
            i = i + 1;
        }
        self.carry = carry;
        assert(start + bytes@.take(i as int) =~= all);
        out
    }
}

/// It does not matter in which pieces the bytes arrive: what comes out in the
/// end is the same.
pub proof fn pieces_do_not_matter(carry: Seq<u8>, a: Seq<u8>, b: Seq<u8>)
    ensures
        samples_of(carry + a) + samples_of(rest_of(carry + a) + b) == samples_of(carry + (a + b)),
        rest_of(rest_of(carry + a) + b) == rest_of(carry + (a + b)),
{
    let x = carry + a;
    let n = (x.len() / 4) as int;
    let y = rest_of(x) + b;
    let all = carry + (a + b);
    assert(all =~= x + b);
    assert(y =~= all.skip(4 * n));
    assert(all.len() == 4 * n + y.len());
    assert(all.len() / 4 == n + y.len() / 4);
    assert forall|i: int| 0 <= i < samples_of(all).len() implies #[trigger] samples_of(all)[i] == (
    samples_of(x) + samples_of(y))[i] by {
        if i < n {
            assert(all[4 * i] == x[4 * i]);
            assert(all[4 * i + 1] == x[4 * i + 1]);
            assert(all[4 * i + 2] == x[4 * i + 2]);
            assert(all[4 * i + 3] == x[4 * i + 3]);
        } else {
            let j = i - n;
            assert(y[4 * j] == all[4 * i]);
            assert(y[4 * j + 1] == all[4 * i + 1]);
            assert(y[4 * j + 2] == all[4 * i + 2]);
            assert(y[4 * j + 3] == all[4 * i + 3]);
        }
    }
    assert(samples_of(x) + samples_of(y) =~= samples_of(all));
    assert(rest_of(y) =~= rest_of(all));
}

/// So many samples of silence.
pub open spec fn silence(n: nat) -> Seq<u32> {
    Seq::new(n, |i: int| 0u32)
}

/// A clip whose first samples are silent.
pub open spec fn blanked(clip: Seq<u32>, n: nat) -> Seq<u32> {
    if n <= clip.len() {
        silence(n) + clip.skip(n as int)
    } else {
        silence(clip.len())
    }
}

/// Silences the first samples of a clip.
pub fn blank_start(clip: &mut Vec<u32>, n: usize)
    ensures
        final(clip)@ == blanked(old(clip)@, n as nat),
{
    let mut i: usize = 0;
    while i < n && i < clip.len()
        invariant
            i <= n,
            i <= clip@.len() == old(clip)@.len(),
            forall|k: int| 0 <= k < i ==> clip@[k] == 0,
            forall|k: int| i <= k < clip@.len() ==> clip@[k] == old(clip)@[k],
        decreases clip@.len() - i,
    {
        clip.set(i, 0);
        i = i + 1;
    }
}

/// The clip as the model gets it, with silence at its end.
pub fn padded(clip: Vec<u32>) -> (r: Vec<u32>)
    ensures
        r@ == clip@ + silence(TAIL_PADDING as nat),
{
    let ghost start = clip@;
    let mut out = clip;
    let mut i: usize = 0;
    while i < TAIL_PADDING
        invariant
            i <= TAIL_PADDING,
            out@ == start + silence(i as nat),
        decreases TAIL_PADDING - i,
    {
        out.push(0);
        i = i + 1;
    }
    out
}

/// Blanking the start of a clip changes neither its length nor what comes
/// after the blank, and nothing of the start is left.
pub proof fn blank_covers_the_start_only(clip: Seq<u32>, n: nat, i: int)
    requires
        0 <= i < clip.len(),
    ensures
        blanked(clip, n).len() == clip.len(),
        blanked(clip, n)[i] == if i < n {
            0
        } else {
            clip[i]
        },
{
}

/// A window after one more sample, and whether that sample filled it.
pub open spec fn counted(count: nat) -> (nat, bool) {
    if count + 1 == METER_WINDOW {
        (0, true)
    } else {
        (count + 1, false)
    }
}

/// A window after `n` more samples, and how many windows they filled.
pub open spec fn counted_all(count: nat, n: nat) -> (nat, nat)
    decreases n,
{
    if n == 0 {
        (count, 0)
    } else {
        let (before, filled) = counted_all(count, (n - 1) as nat);
        let (after, full) = counted(before);
        (
            after,
            if full {
                filled + 1
            } else {
                filled
            },
        )
    }
}

/// From an empty window on, every 800th sample fills one: `n` samples make
/// `n / 800` reports.
pub proof fn samples_fill_windows(n: nat)
    ensures
        counted_all(0, n).0 == n % METER_WINDOW as nat,
        counted_all(0, n).1 == n / METER_WINDOW as nat,
    decreases n,
{
    if n > 0 {
        samples_fill_windows((n - 1) as nat);
    }
}

/// It does not matter for the reports how the samples are cut.
pub proof fn cuts_do_not_matter_to_the_meter(count: nat, a: nat, b: nat)
    ensures
        ({
            let (mid, first) = counted_all(count, a);
            let (end, second) = counted_all(mid, b);
            counted_all(count, a + b) == (end, first + second)
        }),
    decreases b,
{
    if b > 0 {
        cuts_do_not_matter_to_the_meter(count, a, (b - 1) as nat);
    }
}

/// Counts samples for the level meter.
pub struct MeterWindow {
    count: usize,
}

impl View for MeterWindow {
    type V = nat;

    closed spec fn view(&self) -> nat {
        self.count as nat
    }
}

impl MeterWindow {
    #[verifier::type_invariant]
    spec fn well_formed(&self) -> bool {
        self.count < METER_WINDOW
    }

    /// An empty window.
    pub fn new() -> (r: MeterWindow)
        ensures
            r@ == 0,
    {
        MeterWindow { count: 0 }
    }

    /// Counts a sample, and says whether it fills the window; the next sample
    /// then begins a new one.
    pub fn advance(&mut self) -> (full: bool)
        ensures
            old(self)@ < METER_WINDOW,
            (final(self)@, full) == counted(old(self)@),
    {
        proof {
            use_type_invariant(&*self);
        }
        if self.count + 1 >= METER_WINDOW {
            self.count = 0;
            true
        } else {
            self.count = self.count + 1;
            false
        }
    }
}

/// Every fourth byte completes a sample, whose bytes are told apart by their
/// weight, the lowest first; the bytes behind the last whole sample wait.
pub proof fn samples_are_four_bytes_each(bytes: Seq<u8>, i: int)
    ensures
        samples_of(bytes).len() == bytes.len() / 4,
        rest_of(bytes).len() == bytes.len() % 4,
        bytes == bytes.take(4 * samples_of(bytes).len() as int) + rest_of(bytes),
        0 <= i < samples_of(bytes).len() ==> ({
            let s = samples_of(bytes)[i] as int;
            &&& s % 256 == bytes[4 * i]
            &&& s / 256 % 256 == bytes[4 * i + 1]
            &&& s / 65_536 % 256 == bytes[4 * i + 2]
            &&& s / 16_777_216 == bytes[4 * i + 3]
        }),
{
    let n = bytes.len() / 4;
    assert(bytes =~= bytes.take(4 * n as int) + rest_of(bytes));
    if 0 <= i < samples_of(bytes).len() {
        let (a, b, c, d) = (bytes[4 * i], bytes[4 * i + 1], bytes[4 * i + 2], bytes[4 * i + 3]);
        assert(samples_of(bytes)[i] == sample_bits(a, b, c, d));
        let s = a + 0x100 * b + 0x1_0000 * c + 0x100_0000 * d;
        assert(0 <= s <= 0xffff_ffff);
        assert(s % 256 == a);
        assert(s / 256 == b + 0x100 * c + 0x1_0000 * d);
        assert(s / 65_536 == c + 0x100 * d);
        assert(s / 16_777_216 == d);
    }
}

/// Silence is samples of zero.
pub proof fn silence_is_zero(n: nat, i: int)
    ensures
        silence(n).len() == n,
        0 <= i < n ==> silence(n)[i] == 0,
{
}

/// A clip is given to the model as it is, with a quarter of a second of silence
/// behind it.
pub proof fn padding_is_a_quarter_second()
    ensures
        4 * TAIL_PADDING == TARGET_RATE,
        TARGET_RATE == 16_000,
        20 * METER_WINDOW == TARGET_RATE,
{
}

} // verus!
