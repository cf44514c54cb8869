//! Seed layout of the procedural lineae generator: which pseudo-random stream each draw of each
//! linea reads, so that no two draws share one.

use vstd::prelude::*;

verus! {

/// Multiplier that spreads consecutive draw indices over the seed space (the 32-bit golden ratio).
pub const SEED_SPREAD: u32 = 0x9E37_79B9;

/// Seed of the pseudo-random stream of draw `index` under the generator seed `seed`: the seed
/// XOR the index multiplied by `SEED_SPREAD`, modulo 2^32.
pub open spec fn spec_hash_seed(seed: u32, index: u32) -> u32 {
    seed ^ (((index as nat) * (SEED_SPREAD as nat)) % 0x1_0000_0000nat) as u32
}

/// Seed of the pseudo-random stream of draw `index` under the generator seed `seed`.
pub fn hash_seed(seed: u32, index: u32) -> (mixed: u32)
    ensures
        mixed == spec_hash_seed(seed, index),
{
    seed ^ index.wrapping_mul(SEED_SPREAD)
}

/// The independent draws made for each linea.
#[derive(Clone, Copy, Debug, PartialEq, Eq, Hash, Structural)]
pub enum LineaDraw {
    /// Ridge width within its range.
    Width,
    /// Ridge height within its range.
    Height,
    /// Jitter across the grid cell.
    Center,
    /// Jitter along the grid cell.
    Along,
    /// Arc length.
    Length,
    /// Jitter of the direction.
    Angle,
    /// Straight or arc path.
    Style,
    /// Orientation family.
    Family,
}

/// Position of a draw within the block of eight draw indices of one linea, from 1 to 8.
pub open spec fn draw_slot(draw: LineaDraw) -> int {
    match draw {
        LineaDraw::Width => 1,
        LineaDraw::Height => 2,
        LineaDraw::Center => 3,
        LineaDraw::Along => 4,
        LineaDraw::Length => 5,
        LineaDraw::Angle => 6,
        LineaDraw::Style => 7,
        LineaDraw::Family => 8,
    }
}

/// Largest linea index whose draw indices all fit in a `u32`.
pub const MAX_LINEA_INDEX: u32 = 0x1FFF_FFFE;

/// Draw index of `draw` for linea `linea_index`: eight times the linea index plus the draw's slot.
pub fn linea_draw_index(linea_index: u32, draw: LineaDraw) -> (index: u32)
    requires
        linea_index <= MAX_LINEA_INDEX,
    ensures
        index == linea_index * 8 + draw_slot(draw),
{
    let slot: u32 = match draw {
        LineaDraw::Width => 1,
        LineaDraw::Height => 2,
        LineaDraw::Center => 3,
        LineaDraw::Along => 4,
        LineaDraw::Length => 5,
        LineaDraw::Angle => 6,
        LineaDraw::Style => 7,
        LineaDraw::Family => 8,
    };
    linea_index * 8 + slot
}

/// Whether linea `linea_index` is a protagonist: the first two generated are.
pub fn is_protagonist(linea_index: usize) -> (protagonist: bool)
    ensures
        protagonist == (linea_index < 2),
{
    linea_index < 2
}

/// Inverse of `SEED_SPREAD` modulo 2^32.
pub open spec fn seed_spread_inverse() -> u32 {
    0x144C_BC89
}

/// Multiplying by `SEED_SPREAD` modulo 2^32 loses nothing: multiplying back by its inverse gives
/// the index again.
proof fn lemma_seed_spread_invertible(index: u32)
    ensures
        ((((index as nat) * (SEED_SPREAD as nat)) % 0x1_0000_0000nat) * (seed_spread_inverse() as nat))
            % 0x1_0000_0000nat == index as nat,
{
    assert((((index * 0x9E37_79B9u32) % 0x1_0000_0000) * 0x144C_BC89u32) % 0x1_0000_0000
        == index) by (bit_vector);
}

/// Under one generator seed, distinct draw indices read distinct streams: the seed of a draw
/// determines its index.
pub proof fn hash_seed_injective(seed: u32, first: u32, second: u32)
    requires
        first != second,
    ensures
        spec_hash_seed(seed, first) != spec_hash_seed(seed, second),
{
    let m = SEED_SPREAD as nat;
    let first_spread = (((first as nat) * m) % 0x1_0000_0000nat) as u32;
    let second_spread = (((second as nat) * m) % 0x1_0000_0000nat) as u32;
    lemma_seed_spread_invertible(first);
    lemma_seed_spread_invertible(second);
    if first_spread == second_spread {
        assert(((first as nat) * m) % 0x1_0000_0000nat == ((second as nat) * m) % 0x1_0000_0000nat);
        assert(false);
    }
    assert(seed ^ first_spread != seed ^ second_spread) by (bit_vector)
        requires
            first_spread != second_spread,
    ;
}

/// No two draws of a generator share a pseudo-random stream: distinct (linea, draw) pairs have
/// distinct draw indices, hence distinct seeds.
pub proof fn linea_draws_read_distinct_streams(
    seed: u32,
    first_linea: u32,
    first_draw: LineaDraw,
    second_linea: u32,
    second_draw: LineaDraw,
)
    requires
        first_linea <= MAX_LINEA_INDEX,
        second_linea <= MAX_LINEA_INDEX,
        first_linea != second_linea || first_draw != second_draw,
    ensures
        first_linea * 8 + draw_slot(first_draw) != second_linea * 8 + draw_slot(second_draw),
        spec_hash_seed(seed, (first_linea * 8 + draw_slot(first_draw)) as u32) != spec_hash_seed(
            seed,
            (second_linea * 8 + draw_slot(second_draw)) as u32,
        ),
{
    let first_index = first_linea * 8 + draw_slot(first_draw);
    let second_index = second_linea * 8 + draw_slot(second_draw);
    assert(first_index != second_index);
    hash_seed_injective(seed, first_index as u32, second_index as u32);
}

} // verus!
