//! Group offset arithmetic: mapping a (timestep, row) pair of the selection
//! to the absolute 1-based group number of the source table.

use vstd::prelude::*;

verus! {

/// The absolute 1-based group number that holds the visibility record for
/// timestep `timestep_index` and selected row `row_index`, in a table with
/// `num_baselines_per_timestep` consecutive rows per timestep.
pub open spec fn group_number_spec(
    timestep_index: int,
    row_index: int,
    num_baselines_per_timestep: int,
) -> int {
    row_index + 1 + timestep_index * num_baselines_per_timestep
}

/// Computes the absolute 1-based group number for a (timestep, row) pair.
///
/// Pure arithmetic: no bounds validation beyond what the machine forces.
/// Whether the group physically exists in the source is only discovered
/// when the read is attempted.
pub fn group_number(
    timestep_index: usize,
    row_index: usize,
    num_baselines_per_timestep: usize,
) -> (g: u64)
    requires
        timestep_index * num_baselines_per_timestep + row_index + 1 <= u64::MAX,
    ensures
        g == group_number_spec(
            timestep_index as int,
            row_index as int,
            num_baselines_per_timestep as int,
        ),
        g >= 1,
{
    timestep_index as u64 * num_baselines_per_timestep as u64 + row_index as u64 + 1
}

/// For a fixed timestep, the group number is strictly increasing in the
/// row index.
pub proof fn lemma_group_number_increasing_in_row(
    timestep_index: int,
    row_a: int,
    row_b: int,
    num_baselines_per_timestep: int,
)
    requires
        row_a < row_b,
    ensures
        group_number_spec(timestep_index, row_a, num_baselines_per_timestep)
            < group_number_spec(timestep_index, row_b, num_baselines_per_timestep),
{
}

/// For a fixed row index, the group number is strictly increasing in the
/// timestep index (given at least one baseline per timestep).
pub proof fn lemma_group_number_increasing_in_timestep(
    timestep_a: int,
    timestep_b: int,
    row_index: int,
    num_baselines_per_timestep: int,
)
    requires
        timestep_a < timestep_b,
        num_baselines_per_timestep >= 1,
    ensures
        group_number_spec(timestep_a, row_index, num_baselines_per_timestep)
            < group_number_spec(timestep_b, row_index, num_baselines_per_timestep),
{
    assert(timestep_a * num_baselines_per_timestep < timestep_b * num_baselines_per_timestep)
        by (nonlinear_arith)
        requires
            timestep_a < timestep_b,
            num_baselines_per_timestep >= 1,
    ;
}

} // verus!
