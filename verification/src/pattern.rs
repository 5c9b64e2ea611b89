//! The bytes that are written to the flash.

use vstd::arithmetic::div_mod::{
    lemma_add_mod_noop, lemma_mod_multiples_vanish, lemma_mul_mod_noop_left, lemma_small_mod,
};
use vstd::prelude::*;

verus! {

/// `x` turned left by `n` bits, for `n` below 32.
pub open spec fn turned_left(x: u32, n: nat) -> u32 {
    if n == 0 {
        x
    } else {
        (x << (n as u32)) | (x >> ((32 - n) as u32))
    }
}

/// The exclusive or of the four bytes of `x`.
pub open spec fn folded(x: u32) -> u8 {
    (x as u8) ^ ((x >> 8) as u8) ^ ((x >> 16) as u8) ^ ((x >> 24) as u8)
}

/// The word behind the pattern byte at `index`: a linear combination of index
/// and seed, modulo two to the 32, turned left by the index modulo 31.
pub open spec fn pattern_word(index: nat, seed: u32) -> u32 {
    turned_left(((index * 1_664_525 + seed * 1_013_904_223) % 0x1_0000_0000) as u32, index % 31)
}

/// The pattern of `size` bytes for `seed`.
pub open spec fn pattern(size: nat, seed: u32) -> Seq<u8> {
    Seq::new(size, |index: int| folded(pattern_word(index as nat, seed)))
}

fn rotate_left(x: u32, n: u32) -> (turned: u32)
    requires
        n < 32,
    ensures
        turned == turned_left(x, n as nat),
{
    if n == 0 {
        x
    } else {
        (x << n) | (x >> (32 - n))
    }
}

fn fold(x: u32) -> (byte: u8)
    ensures
        byte == folded(x),
{
    assert((x ^ (x >> 8) ^ (x >> 16) ^ (x >> 24)) as u8 == (x as u8) ^ ((x >> 8) as u8) ^ ((x
        >> 16) as u8) ^ ((x >> 24) as u8)) by (bit_vector);
    #[verifier::truncate]
    ((x ^ (x >> 8) ^ (x >> 16) ^ (x >> 24)) as u8)
}

fn combine(index: usize, seed: u32) -> (word: u32)
    ensures
        word == (index * 1_664_525 + seed * 1_013_904_223) % 0x1_0000_0000,
{
    let wide: u64 = index as u64;
    let low: u32 = #[verifier::truncate]
    (wide as u32);
    proof {
        assert(wide as u32 == wide % 0x1_0000_0000) by (bit_vector);
        lemma_mul_mod_noop_left(index as int, 1_664_525, 0x1_0000_0000);
        lemma_add_mod_noop(index * 1_664_525, seed * 1_013_904_223, 0x1_0000_0000);
    }
    low.wrapping_mul(1_664_525).wrapping_add(seed.wrapping_mul(1_013_904_223))
}

/// Generates the pattern of `size` bytes for `seed`.
pub fn generate_pattern(size: usize, seed: u32) -> (bytes: Vec<u8>)
    ensures
        bytes@ == pattern(size as nat, seed),
        bytes@.len() == size,
        forall|i: int|
            0 <= i < size ==> #[trigger] bytes@[i] == {
                let word = ((i * 1_664_525 + seed * 1_013_904_223) % 0x1_0000_0000) as u32;
                let turn = (i % 31) as u32;
                let turned = if turn == 0 {
                    word
                } else {
                    (word << turn) | (word >> ((32 - turn) as u32))
                };
                (turned as u8) ^ ((turned >> 8) as u8) ^ ((turned >> 16) as u8) ^ ((turned
                    >> 24) as u8)
            },
{
    let mut bytes: Vec<u8> = Vec::with_capacity(size);
    let mut index: usize = 0;
    while index < size
        invariant
            index <= size,
            bytes@ == pattern(index as nat, seed),
        decreases size - index,
    {
        let mixed: u32 = rotate_left(combine(index, seed), (index % 31) as u32);
        bytes.push(fold(mixed));
        index = index + 1;
        assert(bytes@ =~= pattern(index as nat, seed));
    }
    bytes
}

/// A longer pattern starts with the shorter one of the same seed, so regions of
/// different sizes are filled alike.
pub proof fn law_pattern_extends(shorter: nat, longer: nat, seed: u32)
    requires
        shorter <= longer,
    ensures
        pattern(shorter, seed) == pattern(longer, seed).take(shorter as int),
{
    assert(pattern(shorter, seed) =~= pattern(longer, seed).take(shorter as int));
}

/// Every byte of a pattern is the exclusive or of the four bytes of one word: the
/// index times 1664525 plus the seed times 1013904223, modulo two to the 32,
/// turned left by the index modulo 31 bits. The bits that leave the word at the
/// left come back at the right.
pub proof fn law_pattern_byte(size: nat, seed: u32, index: nat)
    requires
        index < size,
    ensures
        pattern(size, seed).len() == size,
        ({
            let word = ((index * 1_664_525 + seed * 1_013_904_223) % 0x1_0000_0000) as u32 as u64;
            let turn = (index % 31) as u64;
            let shifted = word << turn;
            let turned = (shifted as u32) | ((shifted >> 32) as u32);
            pattern(size, seed)[index as int] == ((turned >> 24) as u8) ^ ((turned >> 16) as u8) ^ ((
            turned >> 8) as u8) ^ (turned as u8)
        }),
{
    let word = ((index * 1_664_525 + seed * 1_013_904_223) % 0x1_0000_0000) as u32;
    let turn = (index % 31) as u32;
    let wide = word as u64;
    let far = turn as u64;
    let shifted = wide << far;
    let turned = turned_left(word, index % 31);
    if turn == 0 {
        assert(((wide << far) as u32) | (((wide << far) >> 32) as u32) == word) by (bit_vector)
            requires
                wide == word as u64,
                far == 0,
        ;
    } else {
        assert(((wide << far) as u32) | (((wide << far) >> 32) as u32) == (word << turn) | (word
            >> ((32 - turn) as u32))) by (bit_vector)
            requires
                wide == word as u64,
                far == turn as u64,
                0 < turn < 31,
        ;
    }
    assert(((turned >> 24) as u8) ^ ((turned >> 16) as u8) ^ ((turned >> 8) as u8) ^ (turned as u8)
        == (turned as u8) ^ ((turned >> 8) as u8) ^ ((turned >> 16) as u8) ^ ((turned >> 24) as u8))
        by (bit_vector);
}

/// A byte depends on nothing but the linear combination of index and seed and on
/// the turn: where two patterns agree in both, they have the same byte.
pub proof fn law_pattern_depends_on_word_and_turn(
    size: nat,
    seed: u32,
    index: nat,
    other_size: nat,
    other_seed: u32,
    other_index: nat,
)
    requires
        index < size,
        other_index < other_size,
        (index * 1_664_525 + seed * 1_013_904_223) % 0x1_0000_0000 == (other_index * 1_664_525
            + other_seed * 1_013_904_223) % 0x1_0000_0000,
        index % 31 == other_index % 31,
    ensures
        pattern(size, seed)[index as int] == pattern(other_size, other_seed)[other_index as int],
{
}

proof fn lemma_seed_for_word(index: int, word: int)
    requires
        0 <= word < 0x1_0000_0000,
    ensures
        ({
            let seed = (word - index * 1_664_525) * 149_956_767 % 0x1_0000_0000;
            &&& 0 <= seed < 0x1_0000_0000
            &&& (index * 1_664_525 + seed * 1_013_904_223) % 0x1_0000_0000 == word
        }),
{
    let gap = word - index * 1_664_525;
    let product = gap * 149_956_767;
    let seed = product % 0x1_0000_0000;
    let whole = product / 0x1_0000_0000;
    assert(product == whole * 0x1_0000_0000 + seed);
    assert(index * 1_664_525 + seed * 1_013_904_223 == word + 0x1_0000_0000 * (gap * 35_399_990
        - whole * 1_013_904_223));
    lemma_mod_multiples_vanish(gap * 35_399_990 - whole * 1_013_904_223, word, 0x1_0000_0000);
    lemma_small_mod(word as nat, 0x1_0000_0000);
}

/// No byte is the same for all seeds: at every index any word comes up for some
/// seed, and with it any byte.
pub proof fn law_every_byte_comes_up(index: nat, byte: u8) -> (seed: u32)
    ensures
        forall|size: nat| index < size ==> #[trigger] pattern(size, seed)[index as int] == byte,
{
    let turn = (index % 31) as u32;
    let target = byte as u32;
    let word: u32 = if turn == 0 {
        target
    } else {
        (target >> turn) | (target << ((32 - turn) as u32))
    };
    if turn > 0 {
        assert((((target >> turn) | (target << ((32 - turn) as u32))) << turn) | (((target >> turn)
            | (target << ((32 - turn) as u32))) >> ((32 - turn) as u32)) == target) by (bit_vector)
            requires
                0 < turn < 31,
        ;
    }
    assert(turned_left(word, index % 31) == target);
    assert((target as u8) ^ ((target >> 8) as u8) ^ ((target >> 16) as u8) ^ ((target >> 24) as u8)
        == byte) by (bit_vector)
        requires
            target == byte as u32,
    ;
    let seed = ((word - index * 1_664_525) * 149_956_767 % 0x1_0000_0000) as u32;
    lemma_seed_for_word(index as int, word as int);
    seed
}

} // verus!
