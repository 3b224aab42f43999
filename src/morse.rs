use vstd::prelude::*;

use crate::decoder::{decoded, unpack};

verus! {

/// One element of a Morse sequence.
#[derive(Clone, Copy, Debug, PartialEq, Eq, Structural)]
pub enum MorseSymbol {
    /// A short mark (one base unit of tone).
    Dot,
    /// A long mark (three base units of tone).
    Dash,
    /// The silence that closes a character.
    Space,
}

/// The canonical dot/dash pattern of a letter, either case; any other
/// character has an empty pattern.
pub open spec fn letter_code(c: char) -> Seq<MorseSymbol> {
    let o = MorseSymbol::Dot;
    let a = MorseSymbol::Dash;
    match c {
        'A' | 'a' => seq![o, a],
        'B' | 'b' => seq![a, o, o, o],
        'C' | 'c' => seq![a, o, a, o],
        'D' | 'd' => seq![a, o, o],
        'E' | 'e' => seq![o],
        'F' | 'f' => seq![o, o, a, o],
        'G' | 'g' => seq![a, a, o],
        'H' | 'h' => seq![o, o, o, o],
        'I' | 'i' => seq![o, o],
        'J' | 'j' => seq![o, a, a, a],
        'K' | 'k' => seq![a, o, a],
        'L' | 'l' => seq![o, a, o, o],
        'M' | 'm' => seq![a, a],
        'N' | 'n' => seq![a, o],
        'O' | 'o' => seq![a, a, a],
        'P' | 'p' => seq![o, a, a, o],
        'Q' | 'q' => seq![a, a, o, a],
        'R' | 'r' => seq![o, a, o],
        'S' | 's' => seq![o, o, o],
        'T' | 't' => seq![a],
        'U' | 'u' => seq![o, o, a],
        'V' | 'v' => seq![o, o, o, a],
        'W' | 'w' => seq![o, a, a],
        'X' | 'x' => seq![a, o, o, a],
        'Y' | 'y' => seq![a, o, a, a],
        'Z' | 'z' => seq![a, a, o, o],
        _ => Seq::empty(),
    }
}

/// The Morse sequence of an identifier in playback order: each character's
/// pattern followed by one space.
pub open spec fn playback(s: Seq<char>) -> Seq<MorseSymbol>
    decreases s.len(),
{
    if s.len() == 0 {
        Seq::empty()
    } else {
        playback(s.drop_last()) + letter_code(s.last()) + seq![MorseSymbol::Space]
    }
}

/// The dot/dash pattern of one character.
pub fn letter_pattern(c: char) -> (r: Vec<MorseSymbol>)
    ensures
        r@ == letter_code(c),
{
    let o = MorseSymbol::Dot;
    let a = MorseSymbol::Dash;
    let r = match c {
        'A' | 'a' => vec![o, a],
        'B' | 'b' => vec![a, o, o, o],
        'C' | 'c' => vec![a, o, a, o],
        'D' | 'd' => vec![a, o, o],
        'E' | 'e' => vec![o],
        'F' | 'f' => vec![o, o, a, o],
        'G' | 'g' => vec![a, a, o],
        'H' | 'h' => vec![o, o, o, o],
        'I' | 'i' => vec![o, o],
        'J' | 'j' => vec![o, a, a, a],
        'K' | 'k' => vec![a, o, a],
        'L' | 'l' => vec![o, a, o, o],
        'M' | 'm' => vec![a, a],
        'N' | 'n' => vec![a, o],
        'O' | 'o' => vec![a, a, a],
        'P' | 'p' => vec![o, a, a, o],
        'Q' | 'q' => vec![a, a, o, a],
        'R' | 'r' => vec![o, a, o],
        'S' | 's' => vec![o, o, o],
        'T' | 't' => vec![a],
        'U' | 'u' => vec![o, o, a],
        'V' | 'v' => vec![o, o, o, a],
        'W' | 'w' => vec![o, a, a],
        'X' | 'x' => vec![a, o, o, a],
        'Y' | 'y' => vec![a, o, a, a],
        'Z' | 'z' => vec![a, a, o, o],
        _ => Vec::new(),
    };
    assert(r@ =~= letter_code(c));
    r
}

/// The Morse sequence of `ident` in playback order.
pub fn ident_to_morse(ident: &Vec<char>) -> (r: Vec<MorseSymbol>)
    ensures
        r@ == playback(ident@),
{
    let mut out: Vec<MorseSymbol> = Vec::new();
    let mut i: usize = 0;
    while i < ident.len()
        invariant
            i <= ident@.len(),
            out@ == playback(ident@.subrange(0, i as int)),
        decreases ident@.len() - i,
    {
        let pattern = letter_pattern(ident[i]);
        let ghost before = out@;
        let mut j: usize = 0;
        while j < pattern.len()
            invariant
                j <= pattern@.len(),
                out@ == before + pattern@.subrange(0, j as int),
            decreases pattern@.len() - j,
        {
            out.push(pattern[j]);
            assert(pattern@.subrange(0, j + 1) =~= pattern@.subrange(0, j as int).push(pattern@[j as int]));
            j = j + 1;
        }
        out.push(MorseSymbol::Space);
        proof {
            let next = ident@.subrange(0, i + 1);
            assert(next.drop_last() =~= ident@.subrange(0, i as int));
            assert(pattern@.subrange(0, j as int) =~= pattern@);
            assert(out@ =~= playback(next));
        }
        i = i + 1;
    }
    assert(ident@.subrange(0, ident@.len() as int) =~= ident@);
    out
}

/// The sequence `seq` in reverse order.
pub fn reversed(seq: &Vec<MorseSymbol>) -> (r: Vec<MorseSymbol>)
    ensures
        r@ == seq@.reverse(),
{
    let mut out: Vec<MorseSymbol> = Vec::new();
    let n = seq.len();
    let mut k: usize = 0;
    while k < n
        invariant
            n == seq@.len(),
            k <= n,
            out@.len() == k,
            forall|j: int| 0 <= j < k ==> out@[j] == seq@[n - 1 - j],
        decreases n - k,
    {
        out.push(seq[n - 1 - k]);
        k = k + 1;
    }
    assert(out@ =~= seq@.reverse());
    out
}

/// Base unit of keying in milliseconds: one dot at seven words a minute.
pub const TIME_BASE_MS: u64 = 171;

/// Nanoseconds in one millisecond.
pub const NANOS_PER_MILLI: u64 = 1_000_000;

/// Duration of a dot and of the silence after each mark, in milliseconds.
pub open spec fn short_ms() -> nat {
    171
}

/// Duration of a dash and of a character space, in milliseconds.
pub open spec fn long_ms() -> nat {
    513
}

/// Pause between two repetitions of the identifier, in milliseconds.
pub open spec fn end_ms() -> nat {
    1197
}

/// How long the engine waits after taking `sym` off the sequence.
pub open spec fn symbol_wait(sym: MorseSymbol) -> nat {
    match sym {
        MorseSymbol::Dot => short_ms(),
        _ => long_ms(),
    }
}

/// The abstract state of the timing engine.
pub ghost struct MorseState {
    /// Packed code most recently handed in.
    pub ident_new: u64,
    /// Packed code the running sequence was built from.
    pub ident_current: u64,
    /// The decoded identifier being keyed.
    pub ident: Seq<char>,
    /// Symbols still to play, the next one last.
    pub remaining: Seq<MorseSymbol>,
    /// Whether the tone is on.
    pub beep: bool,
    /// Time spent in the current interval, in nanoseconds.
    pub elapsed_ns: nat,
    /// Length of the current interval, in milliseconds.
    pub wait_ms: nat,
}

/// The state of a new engine: no identifier, silent.
pub open spec fn idle_state() -> MorseState {
    MorseState {
        ident_new: 0,
        ident_current: 0,
        ident: Seq::empty(),
        remaining: Seq::empty(),
        beep: false,
        elapsed_ns: 0,
        wait_ms: 0,
    }
}

/// The invariant of the engine state.
pub open spec fn state_wf(s: MorseState) -> bool {
    &&& s.ident == decoded(s.ident_current as nat)
    &&& s.ident.len() == 0 ==> s.remaining.len() == 0
    &&& s.wait_ms <= end_ms()
    &&& s.elapsed_ns <= u64::MAX
}

/// The state after a new packed code was handed in.
pub open spec fn with_code(s: MorseState, code: u64) -> MorseState {
    MorseState { ident_new: code, ..s }
}

/// The state after one tick of `delta_ns` nanoseconds.
pub open spec fn tick(s: MorseState, delta_ns: nat) -> MorseState {
    let clock = if s.elapsed_ns + delta_ns <= u64::MAX {
        s.elapsed_ns + delta_ns
    } else {
        u64::MAX as nat
    };
    let changed = s.ident_new != s.ident_current;
    let ident = if changed { decoded(s.ident_new as nat) } else { s.ident };
    let kept = if changed { Seq::empty() } else { s.remaining };
    let restart = ident.len() > 0 && kept.len() == 0;
    let t = MorseState {
        ident_new: s.ident_new,
        ident_current: s.ident_new,
        ident,
        remaining: if restart { playback(ident).reverse() } else { kept },
        beep: if restart { false } else { s.beep },
        elapsed_ns: if restart { 0 } else { clock },
        wait_ms: if restart { end_ms() } else { s.wait_ms },
    };
    if t.remaining.len() == 0 {
        MorseState { beep: false, ..t }
    } else if t.elapsed_ns / (NANOS_PER_MILLI as nat) <= t.wait_ms {
        t
    } else if t.beep && (t.wait_ms == short_ms() || t.wait_ms == long_ms()) {
        MorseState { wait_ms: t.wait_ms + short_ms(), beep: false, ..t }
    } else {
        let sym = t.remaining.last();
        MorseState {
            remaining: t.remaining.drop_last(),
            elapsed_ns: 0,
            wait_ms: symbol_wait(sym),
            beep: sym != MorseSymbol::Space,
            ..t
        }
    }
}

/// The Morse identifier timing engine: turns a packed identifier code into
/// a keyed on/off signal, tick by tick.
pub struct Morse {
    ident_new: u64,
    ident_current: u64,
    ident: Vec<char>,
    morse: Vec<MorseSymbol>,
    beep: bool,
    time_base: u64,
    duration_short_beep: u64,
    duration_long_beep: u64,
    duration_end_of_ident: u64,
    duration_current: u64,
    duration_to_wait: u64,
}

impl View for Morse {
    type V = MorseState;

    closed spec fn view(&self) -> MorseState {
        MorseState {
            ident_new: self.ident_new,
            ident_current: self.ident_current,
            ident: self.ident@,
            remaining: self.morse@,
            beep: self.beep,
            elapsed_ns: self.duration_current as nat,
            wait_ms: self.duration_to_wait as nat,
        }
    }
}

impl Morse {
    /// The engine is well formed: its durations are the fixed multiples of
    /// the base unit and its state meets `state_wf`.
    pub closed spec fn wf(&self) -> bool {
        &&& self.time_base == TIME_BASE_MS
        &&& self.duration_short_beep == self.time_base
        &&& self.duration_long_beep == 3 * self.time_base
        &&& self.duration_end_of_ident == 7 * self.time_base
        &&& state_wf(self@)
    }

    /// An idle engine with no identifier.
    pub fn new() -> (r: Self)
        ensures
            r.wf(),
            r@ == idle_state(),
    {
        let time_base: u64 = TIME_BASE_MS;
        let r = Morse {
            ident_new: 0,
            ident_current: 0,
            ident: Vec::new(),
            morse: Vec::new(),
            beep: false,
            time_base,
            duration_short_beep: time_base,
            duration_long_beep: time_base * 3,
            duration_end_of_ident: time_base * 7,
            duration_current: 0,
            duration_to_wait: 0,
        };
        proof {
            reveal_with_fuel(crate::decoder::decoded_slots, 9);
            assert(decoded(0) =~= Seq::<char>::empty());
        }
        r
    }

    /// Hands in the packed identifier code for this frame.
    pub fn set_active_identifier(&mut self, code: u64)
        requires
            old(self).wf(),
        ensures
            final(self).wf(),
            final(self)@ == with_code(old(self)@, code),
    {
        self.ident_new = code;
    }

    /// The Morse sequence of the active identifier, next symbol last.
    fn convert_ident_to_morse(&self) -> (r: Vec<MorseSymbol>)
        ensures
            r@ == playback(self.ident@).reverse(),
    {
        let forward = ident_to_morse(&self.ident);
        reversed(&forward)
    }

    /// Advances the engine by `delta_ns` nanoseconds.
    pub fn update(&mut self, delta_ns: u64)
        requires
            old(self).wf(),
        ensures
            final(self).wf(),
            final(self)@ == tick(old(self)@, delta_ns as nat),
    {
        self.duration_current = self.duration_current.saturating_add(delta_ns);

        if self.ident_new != self.ident_current {
            self.ident_current = self.ident_new;
            self.ident = unpack(self.ident_current);
            self.morse.clear();
        }

        if self.ident.len() > 0 && self.morse.len() == 0 {
            self.morse = self.convert_ident_to_morse();
            self.duration_to_wait = self.duration_end_of_ident;
            self.duration_current = 0;
            self.beep = false;
        }

        if self.morse.len() > 0 {
            if self.duration_current / NANOS_PER_MILLI > self.duration_to_wait {
                if (self.duration_to_wait == self.duration_short_beep
                    || self.duration_to_wait == self.duration_long_beep) && self.beep {
                    // the silence after a mark lasts one base unit
                    self.duration_to_wait = self.duration_to_wait + self.duration_short_beep;
                    self.beep = false;
                } else {
                    self.duration_current = 0;
                    match self.morse.pop().unwrap() {
                        MorseSymbol::Dot => {
                            self.duration_to_wait = self.duration_short_beep;
                            self.beep = true;
                        },
                        MorseSymbol::Dash => {
                            self.duration_to_wait = self.duration_long_beep;
                            self.beep = true;
                        },
                        MorseSymbol::Space => {
                            self.duration_to_wait = self.duration_long_beep;
                            self.beep = false;
                        },
                    }
                }
            }
        } else {
            self.beep = false;
        }
        proof {
            assert(self@ =~= tick(old(self)@, delta_ns as nat));
        }
    }

    /// Whether the tone is on.
    pub fn get_state(&self) -> (r: bool)
        ensures
            r == self@.beep,
    {
        self.beep
    }
}

/// Handing in the code of the running sequence again never restarts it:
/// the next tick keeps the identifier and at most takes one symbol off the
/// remaining sequence.
pub proof fn lemma_same_code_keeps_sequence(s: MorseState, code: u64, delta_ns: nat)
    requires
        state_wf(s),
        code == s.ident_current,
    ensures
        tick(with_code(s, code), delta_ns).ident == s.ident,
        tick(with_code(s, code), delta_ns).ident_current == s.ident_current,
        s.remaining.len() > 0 ==> tick(with_code(s, code), delta_ns).remaining == s.remaining
            || tick(with_code(s, code), delta_ns).remaining == s.remaining.drop_last(),
{
}

/// Handing in a code other than the running one makes the next tick drop
/// the rest of the sequence and start the new identifier over, silent, at
/// the beginning of the pause between repetitions.
pub proof fn lemma_new_code_restarts(s: MorseState, code: u64, delta_ns: nat)
    requires
        state_wf(s),
        code != s.ident_current,
    ensures
        tick(with_code(s, code), delta_ns).ident == decoded(code as nat),
        !tick(with_code(s, code), delta_ns).beep,
        decoded(code as nat).len() > 0 ==> tick(with_code(s, code), delta_ns).remaining == playback(
            decoded(code as nat),
        ).reverse() && tick(with_code(s, code), delta_ns).wait_ms == end_ms()
            && tick(with_code(s, code), delta_ns).elapsed_ns == 0,
        decoded(code as nat).len() == 0 ==> tick(with_code(s, code), delta_ns).remaining.len() == 0,
{
    if decoded(code as nat).len() > 0 {
        lemma_playback_nonempty(decoded(code as nat));
    }
}

proof fn lemma_playback_nonempty(s: Seq<char>)
    requires
        s.len() > 0,
    ensures
        playback(s).len() > 0,
        playback(s).reverse().len() > 0,
{
}

/// Packed code zero is the empty identifier, and an engine handed code zero
/// stays silent, tick after tick.
pub proof fn lemma_zero_code_silent(s: MorseState, delta_ns: nat)
    requires
        state_wf(s),
        s.ident_new == 0,
    ensures
        decoded(0) == Seq::<char>::empty(),
        !tick(s, delta_ns).beep,
        tick(s, delta_ns).ident_new == 0,
        tick(s, delta_ns).remaining.len() == 0,
        state_wf(tick(s, delta_ns)),
{
    reveal_with_fuel(crate::decoder::decoded_slots, 9);
    assert(decoded(0) =~= Seq::<char>::empty());
}

/// Every repetition of an identifier starts from one and the same state,
/// whatever the ticks before it: the full sequence, a silent pause of
/// `end_ms()`, and a clock at zero.
pub proof fn lemma_cycle_restart_fixed(s1: MorseState, s2: MorseState, d1: nat, d2: nat)
    requires
        state_wf(s1),
        state_wf(s2),
        s1.ident_new == s1.ident_current,
        s2.ident_new == s1.ident_new,
        s2.ident_current == s1.ident_current,
        s1.ident.len() > 0,
        s1.remaining.len() == 0,
        s2.remaining.len() == 0,
    ensures
        tick(s1, d1) == tick(s2, d2),
        tick(s1, d1).remaining == playback(s1.ident).reverse(),
        tick(s1, d1).wait_ms == end_ms(),
        tick(s1, d1).elapsed_ns == 0,
        !tick(s1, d1).beep,
{
    lemma_playback_nonempty(s1.ident);
}

/// The calibration word of standard keying speed.
pub open spec fn calibration() -> Seq<char> {
    seq!['P', 'A', 'R', 'I', 'S']
}

/// The calibration word.
pub fn calibration_word() -> (r: Vec<char>)
    ensures
        r@ == calibration(),
{
    let r = vec!['P', 'A', 'R', 'I', 'S'];
    assert(r@ =~= calibration());
    r
}

/// Tone time of one symbol, in milliseconds.
pub open spec fn mark_ms(sym: MorseSymbol) -> nat {
    match sym {
        MorseSymbol::Dot => short_ms(),
        MorseSymbol::Dash => long_ms(),
        MorseSymbol::Space => 0,
    }
}

/// Time from taking one symbol off the sequence to taking the next, in
/// milliseconds: a mark is followed by one unit of silence.
pub open spec fn interval_ms(sym: MorseSymbol) -> nat {
    match sym {
        MorseSymbol::Dot => short_ms() + short_ms(),
        MorseSymbol::Dash => long_ms() + short_ms(),
        MorseSymbol::Space => long_ms(),
    }
}

/// Total tone time of a sequence, in milliseconds.
pub open spec fn keyed_ms(q: Seq<MorseSymbol>) -> nat
    decreases q.len(),
{
    if q.len() == 0 {
        0
    } else {
        keyed_ms(q.drop_last()) + mark_ms(q.last())
    }
}

/// Total of the intervals of a sequence, in milliseconds.
pub open spec fn intervals_ms(q: Seq<MorseSymbol>) -> nat
    decreases q.len(),
{
    if q.len() == 0 {
        0
    } else {
        intervals_ms(q.drop_last()) + interval_ms(q.last())
    }
}

/// Period of one repetition of a sequence: the pause, then every interval
/// but the closing space, which the next pause replaces.
pub open spec fn cycle_ms(q: Seq<MorseSymbol>) -> nat {
    end_ms() + intervals_ms(q.drop_last())
}

proof fn lemma_sums_append(a: Seq<MorseSymbol>, b: Seq<MorseSymbol>)
    ensures
        keyed_ms(a + b) == keyed_ms(a) + keyed_ms(b),
        intervals_ms(a + b) == intervals_ms(a) + intervals_ms(b),
    decreases b.len(),
{
    if b.len() > 0 {
        lemma_sums_append(a, b.drop_last());
        assert((a + b).drop_last() =~= a + b.drop_last());
    } else {
        assert(a + b =~= a);
    }
}

/// The calibration word keys 10 dots and 4 dashes: 3762 ms of tone in a
/// repetition of 9405 ms.
pub proof fn lemma_calibration_timing()
    ensures
        keyed_ms(playback(calibration())) == 10 * short_ms() + 4 * long_ms(),
        keyed_ms(playback(calibration())) == 3762,
        cycle_ms(playback(calibration())) == 9405,
{
    let o = MorseSymbol::Dot;
    let a = MorseSymbol::Dash;
    let sp = seq![MorseSymbol::Space];
    let w = calibration();
    assert(w.drop_last() =~= seq!['P', 'A', 'R', 'I']);
    assert(w.drop_last().drop_last() =~= seq!['P', 'A', 'R']);
    assert(w.drop_last().drop_last().drop_last() =~= seq!['P', 'A']);
    assert(seq!['P', 'A'].drop_last() =~= seq!['P']);
    assert(seq!['P'].drop_last() =~= Seq::<char>::empty());
    reveal_with_fuel(playback, 6);
    let p = seq![o, a, a, o] + sp;
    let pa = p + (seq![o, a] + sp);
    let par = pa + (seq![o, a, o] + sp);
    let pari = par + (seq![o, o] + sp);
    let paris = pari + (seq![o, o, o] + sp);
    assert(playback(seq!['P']) =~= p);
    assert(playback(seq!['P', 'A']) =~= pa);
    assert(playback(seq!['P', 'A', 'R']) =~= par);
    assert(playback(seq!['P', 'A', 'R', 'I']) =~= pari);
    assert(playback(w) =~= paris);
    reveal_with_fuel(keyed_ms, 6);
    reveal_with_fuel(intervals_ms, 6);
    lemma_sums_append(Seq::empty(), seq![o, a, a, o] + sp);
    lemma_sums_append(p, seq![o, a] + sp);
    lemma_sums_append(pa, seq![o, a, o] + sp);
    lemma_sums_append(par, seq![o, o] + sp);
    lemma_sums_append(pari, seq![o, o, o] + sp);
    assert(p =~= Seq::empty() + (seq![o, a, a, o] + sp));
    assert(paris.drop_last() =~= pari + seq![o, o, o]);
    lemma_sums_append(pari, seq![o, o, o]);
}

} // verus!
