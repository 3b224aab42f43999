use vstd::prelude::*;

verus! {

/// Number of six-bit character slots in a packed identifier code.
pub const SLOT_COUNT: usize = 8;

/// Offset between a slot's value and the character code it stands for.
pub const CHAR_OFFSET: u32 = 31;

/// The character that a non-zero slot value stands for.
pub open spec fn slot_char(code: nat) -> char {
    ((code + 31) as u32) as char
}

/// The characters held in the lowest `slots` six-bit groups of `value`,
/// least-significant group first; a group of zero holds no character.
pub open spec fn decoded_slots(value: nat, slots: nat) -> Seq<char>
    decreases slots,
{
    if slots == 0 {
        Seq::empty()
    } else {
        let code = value % 64;
        let head = if code > 0 { seq![slot_char(code)] } else { Seq::empty() };
        head + decoded_slots(value / 64, (slots - 1) as nat)
    }
}

/// The identifier that a packed code stands for.
pub open spec fn decoded(value: nat) -> Seq<char> {
    decoded_slots(value, 8)
}

/// A character that one six-bit slot can hold (codes 32 to 94).
pub open spec fn is_slot_char(c: char) -> bool {
    32 <= (c as u32) && (c as u32) <= 94
}

/// The packed code of an identifier: character `i` goes in six-bit group `i`.
pub open spec fn packed(s: Seq<char>) -> nat
    decreases s.len(),
{
    if s.len() == 0 {
        0
    } else {
        ((s[0] as u32) - 31) as nat + 64 * packed(s.drop_first())
    }
}

/// The number of distinct values that `n` six-bit slots can hold.
pub open spec fn slots_span(n: nat) -> nat
    decreases n,
{
    if n == 0 {
        1
    } else {
        64 * slots_span((n - 1) as nat)
    }
}

proof fn lemma_empty_slots(k: nat)
    ensures
        decoded_slots(0, k) == Seq::<char>::empty(),
    decreases k,
{
    if k > 0 {
        lemma_empty_slots((k - 1) as nat);
        assert(decoded_slots(0, k) =~= Seq::<char>::empty());
    }
}

proof fn lemma_packed_slots(s: Seq<char>, k: nat)
    requires
        s.len() <= k,
        forall|i: int| 0 <= i < s.len() ==> is_slot_char(#[trigger] s[i]),
    ensures
        decoded_slots(packed(s), k) == s,
        packed(s) < slots_span(s.len()),
    decreases s.len(),
{
    if s.len() == 0 {
        lemma_empty_slots(k);
        assert(s =~= Seq::<char>::empty());
    } else {
        let rest = s.drop_first();
        assert forall|i: int| 0 <= i < rest.len() implies is_slot_char(#[trigger] rest[i]) by {
            assert(rest[i] == s[i + 1]);
        }
        lemma_packed_slots(rest, (k - 1) as nat);
        let a: nat = ((s[0] as u32) - 31) as nat;
        let b: nat = packed(rest);
        assert(is_slot_char(s[0]));
        assert(1 <= a < 64);
        assert((a + 64 * b) % 64 == a && (a + 64 * b) / 64 == b) by (nonlinear_arith)
            requires
                a < 64,
        ;
        vstd::utf8::char_u32_cast(s[0], s[0] as u32);
        assert(slot_char(a) == s[0]);
        assert(decoded_slots(packed(s), k) =~= s);
        assert(a + 64 * b < 64 * slots_span(rest.len())) by (nonlinear_arith)
            requires
                a < 64,
                b < slots_span(rest.len()),
        ;
    }
}

/// Decoding the packed code of an identifier of at most eight slot
/// characters gives back that identifier, in the same order; the code
/// fits in 48 bits.
pub proof fn lemma_unpack_round_trip(s: Seq<char>)
    requires
        s.len() <= 8,
        forall|i: int| 0 <= i < s.len() ==> is_slot_char(#[trigger] s[i]),
    ensures
        packed(s) < 0x1_0000_0000_0000,
        decoded(packed(s)) == s,
{
    lemma_packed_slots(s, 8);
    lemma_span_mono(s.len(), 8);
    reveal_with_fuel(slots_span, 9);
    assert(slots_span(8) == 0x1_0000_0000_0000);
}

proof fn lemma_span_mono(m: nat, n: nat)
    requires
        m <= n,
    ensures
        slots_span(m) <= slots_span(n),
    decreases n,
{
    if m < n {
        lemma_span_mono(m, (n - 1) as nat);
    }
}

/// Decodes a packed identifier code into its characters, slot 0 first.
pub fn unpack(value: u64) -> (r: Vec<char>)
    ensures
        r@ == decoded(value as nat),
{
    let mut unpacked: Vec<char> = Vec::new();
    let mut rest: u64 = value;
    let mut i: usize = 0;
    while i < SLOT_COUNT
        invariant
            i <= 8,
            unpacked@ + decoded_slots(rest as nat, (8 - i) as nat) == decoded(value as nat),
        decreases 8 - i,
    {
        let code: u64 = rest & 0x3f;
        assert(code == rest % 64) by (bit_vector)
            requires
                code == rest & 0x3f,
        ;
        let ghost before = unpacked@;
        let ghost head = if code > 0 {
            seq![slot_char(code as nat)]
        } else {
            Seq::<char>::empty()
        };
        if code > 0 {
            let b: u8 = (code as u32 + CHAR_OFFSET) as u8;
            let c: char = b as char;
            assert(c == slot_char(code as nat));
            unpacked.push(c);
        }
        proof {
            let tail = decoded_slots((rest / 64) as nat, (8 - i - 1) as nat);
            assert(unpacked@ =~= before + head);
            assert(before + (head + tail) =~= (before + head) + tail);
        }
        rest = rest / 64;
        i = i + 1;
    }
    unpacked
}

} // verus!
