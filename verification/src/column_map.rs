//! The column map: where each logical day-block's four cells live in a raw
//! row, and the order in which day positions are emitted.
//!
//! A raw row starts with seven fixed employee fields (columns 0 through 6).
//! Column 8 anchors four contiguous blocks of `DAY_COUNT` columns each:
//! minutes, then hours, then dates, then descriptions. Physical day-block
//! index `b` therefore reads columns `8 + b` (minutes), `8 + b + DAY_COUNT`
//! (hours), `8 + b + 2 * DAY_COUNT` (date) and `8 + b + 3 * DAY_COUNT`
//! (description).
//!
//! Records are not emitted in physical block order: emission position `p`
//! reads physical block `emission_order()[p]`, a fixed permutation that
//! downstream consumers of the output depend on.

use vstd::prelude::*;

verus! {

/// How many day-blocks a raw row carries.
pub const DAY_COUNT: usize = 15;

/// How many fixed leading fields a raw row must have.
pub const FIXED_FIELD_COUNT: usize = 7;

/// The column where the first day-block's minutes cell sits.
pub const BLOCK_BASE: usize = 8;

/// For each emission-order position, the physical day-block index it reads.
/// A fixed permutation of `[0, DAY_COUNT)`; see `lemma_emission_order_permutes`.
pub open spec fn emission_order() -> Seq<int> {
    seq![0, 1, 10, 11, 12, 13, 14, 2, 3, 4, 5, 6, 7, 8, 9]
}

/// Column of the minutes cell of physical day-block `b`.
pub open spec fn minutes_col(b: int) -> int {
    BLOCK_BASE + b
}

/// Column of the hours cell of physical day-block `b`.
pub open spec fn hours_col(b: int) -> int {
    BLOCK_BASE + b + DAY_COUNT
}

/// Column of the date cell of physical day-block `b`.
pub open spec fn date_col(b: int) -> int {
    BLOCK_BASE + b + 2 * DAY_COUNT
}

/// Column of the description cell of physical day-block `b`.
pub open spec fn desc_col(b: int) -> int {
    BLOCK_BASE + b + 3 * DAY_COUNT
}

/// The physical day-block index read at emission position `pos`.
pub fn physical_block(pos: usize) -> (b: usize)
    requires
        pos < DAY_COUNT,
    ensures
        b as int == emission_order()[pos as int],
        b < DAY_COUNT,
{
    match pos {
        0 => 0,
        1 => 1,
        2 => 10,
        3 => 11,
        4 => 12,
        5 => 13,
        6 => 14,
        7 => 2,
        8 => 3,
        9 => 4,
        10 => 5,
        11 => 6,
        12 => 7,
        13 => 8,
        _ => 9,
    }
}

/// The emission order is a permutation of the physical day-block indices:
/// every emission position reads a distinct in-range block, so each of the
/// `DAY_COUNT` day-blocks is read exactly once per row.
pub proof fn lemma_emission_order_permutes()
    ensures
        emission_order().len() == DAY_COUNT,
        forall|p: int| 0 <= p < DAY_COUNT ==> 0 <= #[trigger] emission_order()[p] < DAY_COUNT,
        forall|p: int, q: int|
            0 <= p < q < DAY_COUNT ==> emission_order()[p] != emission_order()[q],
{
}

} // verus!
