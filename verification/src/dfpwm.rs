//! One-bit adaptive delta encoder.
//!
//! Every signed 8-bit sample yields one bit: whether the sample, scaled to
//! 16 bits, lies above a running reference level (the charge). The charge
//! follows the signal in steps whose size (the strength) grows while the
//! bits repeat and shrinks while they alternate. Bits are packed eight to a
//! byte, least significant bit first.

use crate::arith::clamp_int;
use vstd::prelude::*;

verus! {

/// Lowest value of the charge.
pub const CHARGE_MIN: i32 = -32768;

/// Highest value of the charge.
pub const CHARGE_MAX: i32 = 32767;

/// Lowest strength: an encoder starts at it and never falls below it.
pub const STRENGTH_FLOOR: i32 = 8;

/// Highest strength that the decay lets through.
pub const STRENGTH_CEILING: i32 = 2047;

/// The running state of an encoder, as mathematical integers.
pub struct EncoderState {
    pub charge: int,
    pub strength: int,
    pub previous_bit: bool,
}

impl EncoderState {
    /// The state of an encoder that has seen no sample: charge 0, the
    /// strength at its floor, previous bit clear.
    pub open spec fn fresh() -> EncoderState {
        EncoderState { charge: 0, strength: STRENGTH_FLOOR as int, previous_bit: false }
    }

    /// The ranges that every encoder stays in.
    pub open spec fn valid(self) -> bool {
        &&& CHARGE_MIN <= self.charge <= CHARGE_MAX
        &&& STRENGTH_FLOOR <= self.strength <= STRENGTH_CEILING
    }
}

/// A sample scaled to the range of the charge.
pub open spec fn target_level(sample: i8) -> int {
    sample as int * 256
}

/// The bit emitted for `sample` in state `s`.
pub open spec fn emitted_bit(s: EncoderState, sample: i8) -> bool {
    target_level(sample) > s.charge
}

/// The charge after emitting `bit`: one step of size `strength` towards the
/// sample, kept within the 16-bit range.
pub open spec fn next_charge(s: EncoderState, bit: bool) -> int {
    clamp_int(
        if bit {
            s.charge + s.strength
        } else {
            s.charge - s.strength
        },
        CHARGE_MIN as int,
        CHARGE_MAX as int,
    )
}

/// The strength after emitting `bit`: one up if the bit repeats the previous
/// one, one down otherwise, kept within `0..=32767`, decayed by the factor
/// 2047/2048 and raised to the floor.
pub open spec fn next_strength(s: EncoderState, bit: bool) -> int {
    let adapted = clamp_int(
        if bit == s.previous_bit {
            s.strength + 1
        } else {
            s.strength - 1
        },
        0,
        32767,
    );
    let decayed = adapted * 2047 / 2048;
    if decayed < STRENGTH_FLOOR {
        STRENGTH_FLOOR as int
    } else {
        decayed
    }
}

/// The state after processing one sample.
pub open spec fn step(s: EncoderState, sample: i8) -> EncoderState {
    let bit = emitted_bit(s, sample);
    EncoderState {
        charge: next_charge(s, bit),
        strength: next_strength(s, bit),
        previous_bit: bit,
    }
}

/// The state after processing `samples` in order.
pub open spec fn run(s: EncoderState, samples: Seq<i8>) -> EncoderState
    decreases samples.len(),
{
    if samples.len() == 0 {
        s
    } else {
        step(run(s, samples.drop_last()), samples.last())
    }
}

/// The bits emitted while processing `samples` in order, one per sample.
pub open spec fn bits(s: EncoderState, samples: Seq<i8>) -> Seq<bool>
    decreases samples.len(),
{
    if samples.len() == 0 {
        Seq::empty()
    } else {
        bits(s, samples.drop_last()).push(emitted_bit(run(s, samples.drop_last()), samples.last()))
    }
}

/// Two to the power `n`.
pub open spec fn pow2(n: nat) -> int
    decreases n,
{
    if n == 0 {
        1
    } else {
        2 * pow2((n - 1) as nat)
    }
}

/// The number whose binary digits are `b`, least significant first.
pub open spec fn bits_value(b: Seq<bool>) -> int
    decreases b.len(),
{
    if b.len() == 0 {
        0
    } else {
        bits_value(b.drop_last()) + if b.last() {
            pow2((b.len() - 1) as nat)
        } else {
            0
        }
    }
}

/// Number of bytes that `n` bits are packed into.
pub open spec fn packed_len(n: nat) -> nat {
    ((n + 7) / 8) as nat
}

/// The bits of `b` that go into byte `k`: eight, or fewer in a last, partial
/// byte.
pub open spec fn byte_bits(b: Seq<bool>, k: int) -> Seq<bool> {
    b.subrange(
        8 * k,
        if 8 * k + 8 <= b.len() {
            8 * k + 8
        } else {
            b.len() as int
        },
    )
}

/// `b` packed eight bits to a byte, least significant bit first; the unused
/// high bits of a last, partial byte are zero.
pub open spec fn pack_bits(b: Seq<bool>) -> Seq<u8> {
    Seq::new(packed_len(b.len()), |k: int| bits_value(byte_bits(b, k)) as u8)
}

/// The bytes that encoding `samples` from state `s` produces.
pub open spec fn encoded(s: EncoderState, samples: Seq<i8>) -> Seq<u8> {
    pack_bits(bits(s, samples))
}

/// One emitted bit per sample.
pub proof fn lemma_bits_len(s: EncoderState, samples: Seq<i8>)
    ensures
        bits(s, samples).len() == samples.len(),
    decreases samples.len(),
{
    if samples.len() > 0 {
        lemma_bits_len(s, samples.drop_last());
    }
}

/// Eight samples make one byte: the output has `ceil(n / 8)` bytes.
pub proof fn lemma_encoded_len(s: EncoderState, samples: Seq<i8>)
    ensures
        encoded(s, samples).len() == (samples.len() + 7) / 8,
{
    lemma_bits_len(s, samples);
}

/// The fresh state lies within the ranges.
pub proof fn lemma_fresh_is_valid()
    ensures
        EncoderState::fresh().valid(),
{
}

/// A step keeps a valid state valid: the charge stays within 16 bits and
/// the strength between the floor and the ceiling.
pub proof fn lemma_step_stays_valid(s: EncoderState, sample: i8)
    requires
        s.valid(),
    ensures
        step(s, sample).valid(),
{
}

/// However many samples are processed, the state stays valid.
pub proof fn lemma_run_stays_valid(s: EncoderState, samples: Seq<i8>)
    requires
        s.valid(),
    ensures
        run(s, samples).valid(),
    decreases samples.len(),
{
    if samples.len() > 0 {
        lemma_run_stays_valid(s, samples.drop_last());
        lemma_step_stays_valid(run(s, samples.drop_last()), samples.last());
    }
}

/// The strength never leaves its range: at every point of a run from a
/// fresh encoder, before the first sample and after each one, the strength
/// lies in `8..=2047`.
pub proof fn lemma_strength_bounded_throughout(samples: Seq<i8>, k: int)
    requires
        0 <= k <= samples.len(),
    ensures
        STRENGTH_FLOOR <= run(EncoderState::fresh(), samples.take(k)).strength
            <= STRENGTH_CEILING,
{
    lemma_run_stays_valid(EncoderState::fresh(), samples.take(k));
}

/// The encoder is deterministic: equal states and equal inputs give equal
/// bytes and equal states afterwards.
pub proof fn lemma_encoding_is_deterministic(
    s1: EncoderState,
    s2: EncoderState,
    a: Seq<i8>,
    b: Seq<i8>,
)
    requires
        s1.charge == s2.charge,
        s1.strength == s2.strength,
        s1.previous_bit == s2.previous_bit,
        a.len() == b.len(),
        forall|i: int| 0 <= i < a.len() ==> a[i] == b[i],
    ensures
        encoded(s1, a) == encoded(s2, b),
        run(s1, a) == run(s2, b),
{
    assert(a =~= b);
}

/// The decay outweighs the adaptation: a step never raises the strength.
pub proof fn lemma_strength_never_grows(s: EncoderState, sample: i8)
    requires
        s.valid(),
    ensures
        step(s, sample).strength <= s.strength,
{
}

/// A fresh encoder works at the floor: whatever it is fed, its strength is
/// exactly 8.
pub proof fn lemma_fresh_strength(samples: Seq<i8>)
    ensures
        run(EncoderState::fresh(), samples).strength == STRENGTH_FLOOR,
    decreases samples.len(),
{
    if samples.len() > 0 {
        let before = run(EncoderState::fresh(), samples.drop_last());
        lemma_run_stays_valid(EncoderState::fresh(), samples.drop_last());
        lemma_fresh_strength(samples.drop_last());
        lemma_strength_never_grows(before, samples.last());
        lemma_step_stays_valid(before, samples.last());
    }
}

/// Processing `a` and then `b` is processing `a + b`.
pub proof fn lemma_run_concat(s: EncoderState, a: Seq<i8>, b: Seq<i8>)
    ensures
        run(s, a + b) == run(run(s, a), b),
        bits(s, a + b) == bits(s, a) + bits(run(s, a), b),
    decreases b.len(),
{
    if b.len() == 0 {
        assert(a + b =~= a);
        assert(bits(s, a) + bits(run(s, a), b) =~= bits(s, a));
    } else {
        lemma_run_concat(s, a, b.drop_last());
        assert((a + b).drop_last() =~= a + b.drop_last());
        assert((a + b).last() == b.last());
        assert(bits(s, a + b) =~= bits(s, a) + bits(run(s, a), b));
    }
}

proof fn lemma_pow2_values()
    ensures
        pow2(0) == 1,
        pow2(1) == 2,
        pow2(2) == 4,
        pow2(3) == 8,
        pow2(4) == 16,
        pow2(5) == 32,
        pow2(6) == 64,
        pow2(7) == 128,
        pow2(8) == 256,
{
    reveal_with_fuel(pow2, 9);
}

/// Fewer than `2^n` for `n` bits.
pub proof fn lemma_bits_value_bound(b: Seq<bool>)
    ensures
        0 <= bits_value(b) < pow2(b.len()),
    decreases b.len(),
{
    if b.len() > 0 {
        lemma_bits_value_bound(b.drop_last());
    }
}

/// Setting bit `pos` of a byte that has no bit at or above `pos` adds
/// `2^pos` to it.
proof fn lemma_set_bit(byte: u8, pos: u8)
    requires
        pos < 8,
        (byte as int) < pow2(pos as nat),
    ensures
        (byte | (1u8 << pos)) as int == byte as int + pow2(pos as nat),
        byte as int + pow2(pos as nat) < pow2((pos + 1) as nat),
{
    lemma_pow2_values();
    lemma_shift_values(pos);
    lemma_or_is_add(byte, pos);
}

proof fn lemma_shift_values(pos: u8)
    by (bit_vector)
    requires
        pos < 8,
    ensures
        pos == 0 ==> 1u8 << pos == 1,
        pos == 1 ==> 1u8 << pos == 2,
        pos == 2 ==> 1u8 << pos == 4,
        pos == 3 ==> 1u8 << pos == 8,
        pos == 4 ==> 1u8 << pos == 16,
        pos == 5 ==> 1u8 << pos == 32,
        pos == 6 ==> 1u8 << pos == 64,
        pos == 7 ==> 1u8 << pos == 128,
{
}

proof fn lemma_or_is_add(byte: u8, pos: u8)
    by (bit_vector)
    requires
        pos < 8,
        byte < (1u8 << pos),
    ensures
        byte | (1u8 << pos) == byte + (1u8 << pos),
{
}

/// Processing one more sample appends one bit and takes one step.
pub proof fn lemma_run_push(s: EncoderState, samples: Seq<i8>, sample: i8)
    ensures
        run(s, samples.push(sample)) == step(run(s, samples), sample),
        bits(s, samples.push(sample)) == bits(s, samples).push(
            emitted_bit(run(s, samples), sample),
        ),
{
    assert(samples.push(sample).drop_last() =~= samples);
}

/// One more bit at the top adds its weight to the value.
proof fn lemma_bits_value_push(b: Seq<bool>, bit: bool)
    ensures
        bits_value(b.push(bit)) == bits_value(b) + if bit {
            pow2(b.len())
        } else {
            0
        },
{
    assert(b.push(bit).drop_last() =~= b);
}

/// Packing whole bytes and then up to eight more bits appends one byte.
proof fn lemma_pack_append(b: Seq<bool>, chunk: Seq<bool>)
    requires
        b.len() % 8 == 0,
        0 < chunk.len() <= 8,
    ensures
        pack_bits(b + chunk) == pack_bits(b).push(bits_value(chunk) as u8),
{
    let whole = b + chunk;
    let m = (b.len() / 8) as int;
    assert(packed_len(whole.len()) == m + 1);
    assert(packed_len(b.len()) == m);
    assert forall|k: int| 0 <= k < m + 1 implies pack_bits(whole)[k] == pack_bits(b).push(
        bits_value(chunk) as u8,
    )[k] by {
        if k < m {
            assert(byte_bits(whole, k) =~= byte_bits(b, k));
        } else {
            assert(byte_bits(whole, k) =~= chunk);
        }
    }
    assert(pack_bits(whole) =~= pack_bits(b).push(bits_value(chunk) as u8));
}

/// Packing a whole number of bytes' worth of bits and then some more is
/// packing the two parts separately.
pub proof fn lemma_pack_concat(x: Seq<bool>, y: Seq<bool>)
    requires
        x.len() % 8 == 0,
    ensures
        pack_bits(x + y) == pack_bits(x) + pack_bits(y),
{
    let whole = x + y;
    let m = (x.len() / 8) as int;
    assert(packed_len(whole.len()) == m + packed_len(y.len()));
    assert forall|k: int| 0 <= k < packed_len(whole.len()) implies pack_bits(whole)[k] == (
    pack_bits(x) + pack_bits(y))[k] by {
        if k < m {
            assert(byte_bits(whole, k) =~= byte_bits(x, k));
        } else {
            assert(byte_bits(whole, k) =~= byte_bits(y, k - m));
        }
    }
    assert(pack_bits(whole) =~= pack_bits(x) + pack_bits(y));
}

/// Cutting the input at a multiple of eight samples does not change the
/// bytes: encoding the first part and then, from the state it leaves, the
/// second gives the encoding of the whole.
pub proof fn lemma_encoded_concat(s: EncoderState, a: Seq<i8>, b: Seq<i8>)
    requires
        a.len() % 8 == 0,
    ensures
        encoded(s, a + b) == encoded(s, a) + encoded(run(s, a), b),
{
    lemma_run_concat(s, a, b);
    lemma_bits_len(s, a);
    lemma_pack_concat(bits(s, a), bits(run(s, a), b));
}

/// A stateful encoder. One instance serves one stream; its state carries
/// over from one call of [`DfpwmEncoder::encode`] to the next.
pub struct DfpwmEncoder {
    charge: i32,
    strength: i32,
    previous_bit: bool,
}

impl View for DfpwmEncoder {
    type V = EncoderState;

    closed spec fn view(&self) -> EncoderState {
        EncoderState {
            charge: self.charge as int,
            strength: self.strength as int,
            previous_bit: self.previous_bit,
        }
    }
}

impl DfpwmEncoder {
    #[verifier::type_invariant]
    closed spec fn in_range(self) -> bool {
        self@.valid()
    }

    /// An encoder that has seen no sample: charge 0, the strength at its
    /// floor, previous bit clear.
    pub fn new() -> (encoder: Self)
        ensures
            encoder@ == EncoderState::fresh(),
            encoder@.valid(),
    {
        DfpwmEncoder { charge: 0, strength: STRENGTH_FLOOR, previous_bit: false }
    }

    /// The current reference level.
    pub fn charge(&self) -> (c: i32)
        ensures
            c == self@.charge,
            CHARGE_MIN <= c <= CHARGE_MAX,
    {
        proof {
            use_type_invariant(self);
        }
        self.charge
    }

    /// The current step size.
    pub fn strength(&self) -> (s: i32)
        ensures
            s == self@.strength,
            STRENGTH_FLOOR <= s <= STRENGTH_CEILING,
    {
        proof {
            use_type_invariant(self);
        }
        self.strength
    }

    /// The bit emitted for the last sample (clear before the first).
    pub fn previous_bit(&self) -> (b: bool)
        ensures
            b == self@.previous_bit,
    {
        self.previous_bit
    }

    /// Processes one sample and returns its bit.
    fn encode_sample(&mut self, sample: i8) -> (bit: bool)
        ensures
            bit == emitted_bit(old(self)@, sample),
            final(self)@ == step(old(self)@, sample),
    {
        proof {
            use_type_invariant(&*self);
        }
        let target: i32 = (sample as i32) * 256;
        let current_bit = target > self.charge;

        let mut next_charge: i32 = self.charge;
        if current_bit {
            next_charge = next_charge + self.strength;
        } else {
            next_charge = next_charge - self.strength;
        }
        if next_charge < CHARGE_MIN {
            next_charge = CHARGE_MIN;
        } else if next_charge > CHARGE_MAX {
            next_charge = CHARGE_MAX;
        }

        let mut next_strength: i32 = self.strength;
        if current_bit == self.previous_bit {
            next_strength = next_strength + 1;
        } else {
            next_strength = next_strength - 1;
        }
        if next_strength < 0 {
            next_strength = 0;
        }
        next_strength = next_strength * 2047 / 2048;
        if next_strength < STRENGTH_FLOOR {
            next_strength = STRENGTH_FLOOR;
        }

        self.charge = next_charge;
        self.strength = next_strength;
        self.previous_bit = current_bit;
        current_bit
    }

    /// Encodes `input` and appends the bytes to `output`: one byte for every
    /// eight samples, and one more, padded with zero bits, for what is left.
    /// The encoder's state moves on by `input.len()` samples.
    pub fn encode(&mut self, input: &[i8], output: &mut Vec<u8>)
        ensures
            final(self)@ == run(old(self)@, input@),
            final(output)@ == old(output)@ + encoded(old(self)@, input@),
            final(self)@.valid(),
    {
        proof {
            use_type_invariant(&*self);
        }
        let ghost start = self@;
        let ghost before = output@;
        let ghost emitted = Seq::<bool>::empty();
        let mut byte: u8 = 0;
        let mut bit_pos: u8 = 0;
        let mut i: usize = 0;
        proof {
            assert(input@.take(0) =~= Seq::<i8>::empty());
            assert(emitted.take(0) =~= Seq::<bool>::empty());
            assert(pack_bits(Seq::<bool>::empty()) =~= Seq::<u8>::empty());
            assert(before + Seq::<u8>::empty() =~= before);
        }
        while i < input.len()
            invariant
                i <= input.len(),
                bit_pos < 8,
                bit_pos <= i,
                (i - bit_pos) % 8 == 0,
                emitted.len() == i,
                emitted == bits(start, input@.take(i as int)),
                self@ == run(start, input@.take(i as int)),
                byte as int == bits_value(emitted.skip(i - bit_pos)),
                output@ == before + pack_bits(emitted.take(i - bit_pos)),
            decreases input.len() - i,
        {
            let sample = input[i];
            let bit = self.encode_sample(sample);
            proof {
                let pending = emitted.skip(i - bit_pos);
                lemma_run_push(start, input@.take(i as int), sample);
                assert(input@.take(i + 1) =~= input@.take(i as int).push(sample));
                lemma_bits_value_push(pending, bit);
                lemma_bits_value_bound(pending);
                lemma_set_bit(byte, bit_pos);
                assert(emitted.push(bit).skip(i - bit_pos) =~= pending.push(bit));
                assert(emitted.push(bit).take(i - bit_pos) =~= emitted.take(i - bit_pos));
                emitted = emitted.push(bit);
            }
            if bit {
                byte = byte | (1u8 << bit_pos);
            }
            bit_pos = bit_pos + 1;
            if bit_pos == 8 {
                proof {
                    lemma_pack_append(emitted.take(i + 1 - 8), emitted.skip(i + 1 - 8));
                    assert(emitted.take(i + 1 - 8) + emitted.skip(i + 1 - 8) =~= emitted);
                    assert(emitted.take(i + 1) =~= emitted);
                    assert(emitted.skip(i + 1) =~= Seq::<bool>::empty());
                }
                output.push(byte);
                byte = 0;
                bit_pos = 0;
            }
            i = i + 1;
        }
        proof {
            assert(input@.take(i as int) =~= input@);
            lemma_run_stays_valid(start, input@);
        }
        if bit_pos > 0 {
            proof {
                lemma_pack_append(emitted.take(i - bit_pos), emitted.skip(i - bit_pos));
                assert(emitted.take(i - bit_pos) + emitted.skip(i - bit_pos) =~= emitted);
            }
            output.push(byte);
        } else {
            proof {
                assert(emitted.take(i as int) =~= emitted);
            }
        }
    }
}

impl Default for DfpwmEncoder {
    fn default() -> (encoder: Self)
        ensures
            encoder@ == EncoderState::fresh(),
    {
        DfpwmEncoder::new()
    }
}

} // verus!
