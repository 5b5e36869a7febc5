//! The caller's description of what to extract: the shape of the source
//! table and the ordered list of selected row indices.

use vstd::prelude::*;
use crate::error::ExtractError;

verus! {

/// Floats per channel in a group payload: 4 polarizations, each carrying
/// (real, imaginary, weight).
pub const FLOATS_PER_CHANNEL: usize = 12;

/// A validated extraction request.
///
/// `row_indices` is ordered and may contain duplicates; its order defines
/// the output tensor's second dimension. Row indices are 0-based within a
/// timestep.
pub struct Selection {
    pub num_timesteps: usize,
    pub num_baselines_per_timestep: usize,
    pub num_channels: usize,
    pub row_indices: Vec<usize>,
}

impl Selection {
    /// Number of selected rows per timestep.
    pub open spec fn num_rows(self) -> int {
        self.row_indices@.len() as int
    }

    /// Floats in one group's payload.
    pub open spec fn floats_per_group(self) -> int {
        self.num_channels * FLOATS_PER_CHANNEL
    }

    /// Total floats of the raw tensor for this selection.
    pub open spec fn total_floats(self) -> int {
        self.num_timesteps * self.num_rows() * self.floats_per_group()
    }

    /// A selection the extraction pipeline can act on: positive shape
    /// numbers, at least one selected row, and sizes within what the
    /// machine can address (the raw tensor fits in memory, every group
    /// number fits the accessor's argument type).
    pub open spec fn wf(self) -> bool {
        &&& self.num_timesteps >= 1
        &&& self.num_baselines_per_timestep >= 1
        &&& self.num_channels >= 1
        &&& self.num_rows() >= 1
        &&& self.total_floats() <= usize::MAX
        &&& forall|j: int|
            0 <= j < self.num_rows() ==> (self.num_timesteps - 1)
                * self.num_baselines_per_timestep + #[trigger] self.row_indices@[j] + 1
                <= u64::MAX
    }

    /// Builds a selection, rejecting an empty row-index list before any
    /// read is attempted.
    pub fn new(
        num_timesteps: usize,
        num_baselines_per_timestep: usize,
        num_channels: usize,
        row_indices: Vec<usize>,
    ) -> (r: Result<Selection, ExtractError>)
        requires
            num_timesteps >= 1,
            num_baselines_per_timestep >= 1,
            num_channels >= 1,
            num_timesteps * row_indices@.len() * (num_channels * FLOATS_PER_CHANNEL)
                <= usize::MAX,
            forall|j: int|
                0 <= j < row_indices@.len() ==> (num_timesteps - 1) * num_baselines_per_timestep
                    + #[trigger] row_indices@[j] + 1 <= u64::MAX,
        ensures
            r is Ok <==> row_indices@.len() >= 1,
            r is Err ==> r == Err::<Selection, ExtractError>(ExtractError::Configuration),
            r matches Ok(sel) ==> {
                &&& sel.num_timesteps == num_timesteps
                &&& sel.num_baselines_per_timestep == num_baselines_per_timestep
                &&& sel.num_channels == num_channels
                &&& sel.row_indices@ == row_indices@
                &&& sel.wf()
            },
    {
        if row_indices.len() == 0 {
            Err(ExtractError::Configuration)
        } else {
            Ok(
                Selection {
                    num_timesteps,
                    num_baselines_per_timestep,
                    num_channels,
                    row_indices,
                },
            )
        }
    }
}

} // verus!
