//! Seeded, reproducible random number generation.
use rand::{RngCore, SeedableRng};
use rand_chacha::ChaCha8Rng;
use vstd::prelude::*;

verus! {

/// Errors of restoring a generator from a state descriptor.
#[derive(Debug, PartialEq, Eq, Structural)]
pub enum PRNGError {
    InvalidState,
}

/// Complete descriptor of a generator's position: the seed it was built
/// from, its stream, and its offset in 32-bit words within that stream.
#[derive(Clone, Copy, Debug, Default, PartialEq, Eq, Structural)]
pub struct PrngStatePOD {
    pub seed: u64,
    pub stream_id: u64,
    pub word_pos: u128,
}

impl PrngStatePOD {
    /// The descriptor with the given fields.
    pub fn new(seed: u64, stream_id: u64, word_pos: u128) -> (r: Self)
        ensures
            r.seed == seed,
            r.stream_id == stream_id,
            r.word_pos == word_pos,
    {
        Self { seed, stream_id, word_pos }
    }
}

// `rand_chacha::ChaCha8Rng`, held opaquely. The crate documents the
// generator's observable state as three values: its key (`get_seed`), its
// stream (`get_stream`) and its word position (`get_word_pos`); its own
// equality and serde form compare and store exactly these. The three names
// below stand for them, and the wrappers state how each call reads or moves
// them.
#[verifier::external_type_specification]
#[verifier::external_body]
pub struct ExChaCha8Rng(ChaCha8Rng);

/// Number of addressable word positions of a ChaCha stream: offsets are
/// 68-bit numbers.
pub const WORD_POS_PERIOD: u128 = 0x10_0000_0000_0000_0000;

/// Name for what `ChaCha8Rng::get_seed` returns: the generator's 32-byte key.
pub uninterp spec fn chacha_key(rng: ChaCha8Rng) -> Seq<u8>;

/// Name for what `ChaCha8Rng::get_stream` returns.
pub uninterp spec fn chacha_stream(rng: ChaCha8Rng) -> u64;

/// Name for what `ChaCha8Rng::get_word_pos` returns: the offset, in 32-bit
/// words, of the next output within the stream.
pub uninterp spec fn chacha_word_pos(rng: ChaCha8Rng) -> u128;

/// Name for the key `SeedableRng::seed_from_u64` derives from a `u64`.
pub uninterp spec fn key_from_u64(seed: u64) -> Seq<u8>;

/// Name for the ChaCha8 keystream: the 32-bit word at offset `pos` of stream
/// `stream` under `key`, which is what `next_u32` returns at that position.
pub uninterp spec fn chacha8_word(key: Seq<u8>, stream: u64, pos: u128) -> u32;

/// The offset `n` words after `pos`, on the 68-bit position circle.
pub open spec fn advance(pos: u128, n: int) -> u128 {
    ((pos + n) % (WORD_POS_PERIOD as int)) as u128
}

/// Calls `ChaCha8Rng::seed_from_u64`: a fresh generator keyed by the seed's
/// expansion, on stream 0 at position 0.
#[verifier::external_body]
fn chacha_from_u64(seed: u64) -> (r: ChaCha8Rng)
    ensures
        chacha_key(r) == key_from_u64(seed),
        chacha_stream(r) == 0,
        chacha_word_pos(r) == 0,
{
    ChaCha8Rng::seed_from_u64(seed)
}

/// Calls `ChaCha8Rng::next_u32`: the keystream word at the current position;
/// the position advances by one word, key and stream are kept.
#[verifier::external_body]
fn chacha_next_u32(rng: &mut ChaCha8Rng) -> (r: u32)
    ensures
        r == chacha8_word(chacha_key(*old(rng)), chacha_stream(*old(rng)), chacha_word_pos(*old(rng))),
        chacha_key(*final(rng)) == chacha_key(*old(rng)),
        chacha_stream(*final(rng)) == chacha_stream(*old(rng)),
        chacha_word_pos(*final(rng)) == advance(chacha_word_pos(*old(rng)), 1),
    no_unwind
{
    rng.next_u32()
}

/// Calls `ChaCha8Rng::next_u64`: the word at the current position in the low
/// half and the following word in the high half; the position advances by
/// two words, key and stream are kept.
#[verifier::external_body]
fn chacha_next_u64(rng: &mut ChaCha8Rng) -> (r: u64)
    ensures
        r == (chacha8_word(chacha_key(*old(rng)), chacha_stream(*old(rng)), chacha_word_pos(*old(rng))) as u64)
            | ((chacha8_word(
            chacha_key(*old(rng)),
            chacha_stream(*old(rng)),
            advance(chacha_word_pos(*old(rng)), 1),
        ) as u64) << 32u64),
        chacha_key(*final(rng)) == chacha_key(*old(rng)),
        chacha_stream(*final(rng)) == chacha_stream(*old(rng)),
        chacha_word_pos(*final(rng)) == advance(chacha_word_pos(*old(rng)), 2),
    no_unwind
{
    rng.next_u64()
}

/// Calls `ChaCha8Rng::get_stream`.
#[verifier::external_body]
fn chacha_get_stream(rng: &ChaCha8Rng) -> (r: u64)
    ensures
        r == chacha_stream(*rng),
{
    rng.get_stream()
}

/// Calls `ChaCha8Rng::get_word_pos`; the offset is a 68-bit number.
#[verifier::external_body]
fn chacha_get_word_pos(rng: &ChaCha8Rng) -> (r: u128)
    ensures
        r == chacha_word_pos(*rng),
        r < WORD_POS_PERIOD,
{
    rng.get_word_pos()
}

/// Calls `ChaCha8Rng::set_stream`: switches stream, keeping key and position.
#[verifier::external_body]
fn chacha_set_stream(rng: &mut ChaCha8Rng, stream: u64)
    ensures
        chacha_key(*final(rng)) == chacha_key(*old(rng)),
        chacha_stream(*final(rng)) == stream,
        chacha_word_pos(*final(rng)) == chacha_word_pos(*old(rng)),
    no_unwind
{
    rng.set_stream(stream)
}

/// Calls `ChaCha8Rng::set_word_pos`: moves to the offset modulo 2^68,
/// keeping key and stream.
#[verifier::external_body]
fn chacha_set_word_pos(rng: &mut ChaCha8Rng, word_pos: u128)
    ensures
        chacha_key(*final(rng)) == chacha_key(*old(rng)),
        chacha_stream(*final(rng)) == chacha_stream(*old(rng)),
        chacha_word_pos(*final(rng)) == advance(word_pos, 0),
    no_unwind
{
    rng.set_word_pos(word_pos)
}

/// The next word a generator in state `st` draws.
pub open spec fn next_word(st: PrngStatePOD) -> u32 {
    chacha8_word(key_from_u64(st.seed), st.stream_id, st.word_pos)
}

/// The state `n` words further on.
pub open spec fn skip_words(st: PrngStatePOD, n: int) -> PrngStatePOD {
    PrngStatePOD { word_pos: advance(st.word_pos, n), ..st }
}

/// A descriptor a generator can be restored from: its word position lies
/// within the stream.
pub open spec fn restorable(pod: PrngStatePOD) -> bool {
    pod.word_pos < WORD_POS_PERIOD
}

/// What restoring from `pod` gives: a generator in state `pod`, or
/// `InvalidState` for a position beyond the stream.
pub open spec fn restore(pod: PrngStatePOD) -> Result<PrngStatePOD, PRNGError> {
    if restorable(pod) {
        Ok(pod)
    } else {
        Err(PRNGError::InvalidState)
    }
}

/// The two words at the current position joined into a `u64`, the first in
/// the low half.
pub open spec fn next_double_word(st: PrngStatePOD) -> u64 {
    (next_word(st) as u64) | ((next_word(skip_words(st, 1)) as u64) << 32u64)
}

/// The state of the child `fork` derives: seeded by the next double word,
/// on the next stream (wrapping), at position 0.
pub open spec fn forked_child(st: PrngStatePOD) -> PrngStatePOD {
    PrngStatePOD {
        seed: next_double_word(st),
        stream_id: if st.stream_id == u64::MAX {
            0
        } else {
            (st.stream_id + 1) as u64
        },
        word_pos: 0,
    }
}

/// A call a generator can be asked to make.
pub enum RngCall {
    NextU32,
    NextU64,
    GenUnitBits,
    Fork,
}

/// What a call hands back: a word, a double word, the bits of a value in
/// `[1.0, 2.0)`, or the state of a forked child.
pub enum RngDraw {
    Word(u32),
    DoubleWord(u64),
    UnitBits(u32),
    Child(PrngStatePOD),
}

/// One call on a generator in state `st`: what it returns and the state it
/// leaves behind.
pub open spec fn draw(st: PrngStatePOD, call: RngCall) -> (RngDraw, PrngStatePOD) {
    match call {
        RngCall::NextU32 => (RngDraw::Word(next_word(st)), skip_words(st, 1)),
        RngCall::NextU64 => (RngDraw::DoubleWord(next_double_word(st)), skip_words(st, 2)),
        RngCall::GenUnitBits => (
            RngDraw::UnitBits(0x3F80_0000u32 | (next_word(st) >> 9u32)),
            skip_words(st, 1),
        ),
        RngCall::Fork => (RngDraw::Child(forked_child(st)), skip_words(st, 2)),
    }
}

/// The results of a sequence of calls on a generator in state `st`.
pub open spec fn replay(st: PrngStatePOD, calls: Seq<RngCall>) -> Seq<RngDraw>
    decreases calls.len(),
{
    if calls.len() == 0 {
        seq![]
    } else {
        seq![draw(st, calls[0]).0] + replay(draw(st, calls[0]).1, calls.drop_first())
    }
}

/// The state a generator in state `st` is left in by a sequence of calls.
pub open spec fn replay_end(st: PrngStatePOD, calls: Seq<RngCall>) -> PrngStatePOD
    decreases calls.len(),
{
    if calls.len() == 0 {
        st
    } else {
        replay_end(draw(st, calls[0]).1, calls.drop_first())
    }
}

/// A seeded ChaCha8 generator that remembers the seed it was built from.
///
/// Its view is its complete state descriptor; the key of the underlying
/// generator is always the expansion of the remembered seed.
pub struct DeterministicRng {
    inner: ChaCha8Rng,
    seed: u64,
}

impl View for DeterministicRng {
    type V = PrngStatePOD;

    closed spec fn view(&self) -> PrngStatePOD {
        PrngStatePOD {
            seed: self.seed,
            stream_id: chacha_stream(self.inner),
            word_pos: chacha_word_pos(self.inner),
        }
    }
}

impl DeterministicRng {
    #[verifier::type_invariant]
    spec fn keyed_by_seed(self) -> bool {
        &&& chacha_key(self.inner) == key_from_u64(self.seed)
        &&& chacha_word_pos(self.inner) < WORD_POS_PERIOD
    }

    /// A generator at the start of stream 0 for `seed`.
    pub fn new(seed: u64) -> (r: Self)
        ensures
            r@ == (PrngStatePOD { seed, stream_id: 0, word_pos: 0 }),
    {
        Self { inner: chacha_from_u64(seed), seed }
    }

    /// Draws the next 32-bit word.
    pub fn next_u32(&mut self) -> (r: u32)
        ensures
            (RngDraw::Word(r), final(self)@) == draw(old(self)@, RngCall::NextU32),
    {
        proof {
            use_type_invariant(&*self);
        }
        chacha_next_u32(&mut self.inner)
    }
    /// Draws the next two words as one `u64`, the first in the low half.
    pub fn next_u64(&mut self) -> (r: u64)
        ensures
            (RngDraw::DoubleWord(r), final(self)@) == draw(old(self)@, RngCall::NextU64),
    {
        proof {
            use_type_invariant(&*self);
        }
        chacha_next_u64(&mut self.inner)
    }

    /// Draws the next word and injects its 23 high bits as the fraction of a
    /// binary32 value with exponent zero: the bit pattern of a value in
    /// `[1.0, 2.0)`. Scaling it to a range is done by the caller.
    pub fn gen_unit_bits(&mut self) -> (r: u32)
        ensures
            (RngDraw::UnitBits(r), final(self)@) == draw(old(self)@, RngCall::GenUnitBits),
    {
        let word = self.next_u32();
        0x3F80_0000u32 | (word >> 9u32)
    }

    /// Derives a child generator: its seed is the next `u64` drawn from this
    /// one, its stream is this generator's stream plus one (wrapping), and it
    /// starts at position 0.
    pub fn fork(&mut self) -> (child: Self)
        ensures
            (RngDraw::Child(child@), final(self)@) == draw(old(self)@, RngCall::Fork),
    {
        let child_seed = self.next_u64();
        proof {
            use_type_invariant(&*self);
        }
        let stream = chacha_get_stream(&self.inner);
        let child = Self::new(child_seed);
        child.with_stream(stream.wrapping_add(1))
    }

    /// The generator's complete state descriptor.
    pub fn export_pod(&self) -> (r: PrngStatePOD)
        ensures
            r == self@,
            restore(r) == Ok::<PrngStatePOD, PRNGError>(self@),
    {
        proof {
            use_type_invariant(self);
        }
        PrngStatePOD::new(self.seed, chacha_get_stream(&self.inner), chacha_get_word_pos(&self.inner))
    }

    /// Rebuilds a generator from a descriptor: seeded by `pod.seed`, on
    /// `pod.stream_id`, at `pod.word_pos`.
    ///
    /// Refused with `InvalidState` exactly when the word position lies
    /// beyond the stream (2^68 words or more).
    pub fn from_pod(pod: PrngStatePOD) -> (r: Result<Self, PRNGError>)
        ensures
            match restore(pod) {
                Ok(st) => r matches Ok(g) && g@ == st,
                Err(e) => r == Err::<Self, PRNGError>(e),
            },
    {
        if pod.word_pos >= WORD_POS_PERIOD {
            return Err(PRNGError::InvalidState);
        }
        let mut inner = chacha_from_u64(pod.seed);
        chacha_set_stream(&mut inner, pod.stream_id);
        chacha_set_word_pos(&mut inner, pod.word_pos);
        Ok(Self { inner, seed: pod.seed })
    }

    /// The same generator moved to another stream, at the same position.
    fn with_stream(self, stream_id: u64) -> (r: Self)
        ensures
            r@ == (PrngStatePOD { stream_id, ..self@ }),
    {
        proof {
            use_type_invariant(&self);
        }
        let mut this = self;
        chacha_set_stream(&mut this.inner, stream_id);
        this
    }
}

/// Restoring from an exported descriptor gives a generator that answers
/// every sequence of calls exactly as the exporting generator does: both
/// return the same results and end in the same state.
pub proof fn law_restore_replays_like_export(exported: PrngStatePOD, calls: Seq<RngCall>)
    requires
        restorable(exported),
    ensures
        restore(exported) matches Ok(st) && replay(st, calls) == replay(exported, calls)
            && replay_end(st, calls) == replay_end(exported, calls),
{
}

/// Two generators in the same state (built from the same seed, restored from
/// the same descriptor, or one restored from the other's export) answer
/// every sequence of calls alike: the same results, the same final state.
pub proof fn law_equal_states_replay_alike(a: PrngStatePOD, b: PrngStatePOD, calls: Seq<RngCall>)
    requires
        a == b,
    ensures
        replay(a, calls) == replay(b, calls),
        replay_end(a, calls) == replay_end(b, calls),
{
}

/// Drawing `n` words one by one from a generator's state yields the
/// keystream words at `n` consecutive positions, and moves the generator `n`
/// words on.
pub proof fn law_words_are_consecutive_keystream(st: PrngStatePOD, n: nat)
    requires
        restorable(st),
    ensures
        replay(st, Seq::new(n, |i: int| RngCall::NextU32)) == Seq::new(
            n,
            |i: int| RngDraw::Word(next_word(skip_words(st, i))),
        ),
        replay_end(st, Seq::new(n, |i: int| RngCall::NextU32)) == skip_words(st, n as int),
    decreases n,
{
    let calls = Seq::new(n, |i: int| RngCall::NextU32);
    if n == 0 {
        assert(replay(st, calls) =~= Seq::<RngDraw>::empty());
        lemma_advance_twice(st.word_pos, 0, 0);
    } else {
        let next = skip_words(st, 1);
        let rest = Seq::new((n - 1) as nat, |i: int| RngCall::NextU32);
        assert(calls.drop_first() =~= rest);
        law_words_are_consecutive_keystream(next, (n - 1) as nat);
        assert forall|i: int| 0 <= i < n implies #[trigger] skip_words(st, i) == if i == 0 {
            st
        } else {
            skip_words(next, i - 1)
        } by {
            if i > 0 {
                lemma_advance_twice(st.word_pos, 1, i - 1);
            } else {
                lemma_advance_twice(st.word_pos, 0, 0);
            }
        }
        lemma_advance_twice(st.word_pos, 1, n - 1);
        assert(replay(st, calls) =~= Seq::new(n, |i: int| RngDraw::Word(next_word(skip_words(st, i)))));
    }
}

/// Moving `m` words then `k` words is moving `m + k` words.
proof fn lemma_advance_twice(pos: u128, m: int, k: int)
    requires
        pos < WORD_POS_PERIOD,
        m >= 0,
        k >= 0,
    ensures
        advance(advance(pos, m), k) == advance(pos, m + k),
        advance(pos, 0) == pos,
{
    let p = WORD_POS_PERIOD as int;
    vstd::arithmetic::div_mod::lemma_add_mod_noop_right(k, pos + m, p);
    vstd::arithmetic::div_mod::lemma_small_mod(pos as nat, p as nat);
}

/// Every pattern `gen_unit_bits` can return is a positive binary32 value with
/// exponent field 127: a number in `[1.0, 2.0)`.
pub proof fn law_unit_bits_lie_in_one_to_two(word: u32)
    ensures
        crate::ieee::exponent(0x3F80_0000u32 | (word >> 9u32)) == 127,
        !crate::ieee::is_negative(0x3F80_0000u32 | (word >> 9u32)),
{
    assert(((0x3F80_0000u32 | (word >> 9u32)) >> 23u32) & 0xFFu32 == 127) by (bit_vector);
    assert((0x3F80_0000u32 | (word >> 9u32)) < 0x8000_0000u32) by (bit_vector);
}

/// `gen_unit_bits` returns a positive binary32 value with exponent field 127
/// whose 23 fraction bits are the 23 high bits of the next keystream word,
/// and moves the generator exactly as drawing that word does.
pub proof fn law_unit_bits_carry_the_next_word(st: PrngStatePOD)
    ensures
        draw(st, RngCall::GenUnitBits).1 == draw(st, RngCall::NextU32).1,
        draw(st, RngCall::GenUnitBits).1 == skip_words(st, 1),
        draw(st, RngCall::NextU32).0 == RngDraw::Word(next_word(st)),
        draw(st, RngCall::GenUnitBits).0 matches RngDraw::UnitBits(u) && {
            &&& u & 0x007F_FFFFu32 == next_word(st) >> 9u32
            &&& u >> 23u32 == 127
        },
{
    let w = next_word(st);
    assert((0x3F80_0000u32 | (w >> 9u32)) & 0x007F_FFFFu32 == w >> 9u32) by (bit_vector);
    assert((0x3F80_0000u32 | (w >> 9u32)) >> 23u32 == 127) by (bit_vector);
}

/// `next_u64` returns the next two keystream words, the first in the low
/// half and the second in the high half, and leaves the generator where two
/// `next_u32` calls would.
pub proof fn law_double_word_is_two_words(st: PrngStatePOD)
    requires
        restorable(st),
    ensures
        draw(st, RngCall::NextU64).0 matches RngDraw::DoubleWord(d) && {
            &&& d & 0xFFFF_FFFFu64 == next_word(st) as u64
            &&& d >> 32u64 == next_word(draw(st, RngCall::NextU32).1) as u64
        },
        draw(st, RngCall::NextU64).1 == draw(draw(st, RngCall::NextU32).1, RngCall::NextU32).1,
{
    let lo = next_word(st);
    let hi = next_word(skip_words(st, 1));
    assert(((lo as u64) | ((hi as u64) << 32u64)) & 0xFFFF_FFFFu64 == lo as u64) by (bit_vector);
    assert(((lo as u64) | ((hi as u64) << 32u64)) >> 32u64 == hi as u64) by (bit_vector);
    lemma_advance_twice(st.word_pos, 1, 1);
}

/// `fork` gives a child seeded by the value `next_u64` would return, on the
/// parent's stream plus one (modulo 2^64), at position 0, and leaves the
/// parent where `next_u64` would.
pub proof fn law_fork_child_is_seeded_by_next_double_word(st: PrngStatePOD)
    ensures
        draw(st, RngCall::Fork).0 matches RngDraw::Child(c) && {
            &&& RngDraw::DoubleWord(c.seed) == draw(st, RngCall::NextU64).0
            &&& c.stream_id as int == (st.stream_id as int + 1) % 0x1_0000_0000_0000_0000
            &&& c.word_pos == 0
        },
        draw(st, RngCall::Fork).1 == draw(st, RngCall::NextU64).1,
{
}

/// A descriptor is restored exactly when its word position lies below 2^68,
/// and then to exactly that state.
pub proof fn law_restore_accepts_positions_in_stream(pod: PrngStatePOD)
    ensures
        restore(pod) is Ok <==> pod.word_pos < 0x10_0000_0000_0000_0000u128,
        restore(pod) is Ok ==> restore(pod) == Ok::<PrngStatePOD, PRNGError>(pod),
        restore(pod) is Err ==> restore(pod) == Err::<PrngStatePOD, PRNGError>(PRNGError::InvalidState),
{
}

} // verus!
