//! Building the raw visibility tensor: the read plan over the selection and
//! the assembly of the returned payload blocks into one dense buffer.

use vstd::prelude::*;
use crate::error::ExtractError;
use crate::group::{group_number, group_number_spec};
use crate::layout::{lemma_flat_index_decompose, lemma_flat_index_increases};
use crate::selection::{Selection, FLOATS_PER_CHANNEL};

verus! {

/// The raw 3-D tensor of an extraction: dimensions (timestep, selected row,
/// flat channel floats), flattened row-major into `data`. Each element is
/// the bit pattern of one 32-bit float of a group payload.
pub struct RawVisibilityTensor {
    pub num_timesteps: usize,
    pub num_rows: usize,
    pub num_channels: usize,
    pub data: Vec<u32>,
}

impl RawVisibilityTensor {
    /// Length of the innermost dimension: always an exact multiple of 12.
    pub open spec fn floats_per_group(self) -> int {
        self.num_channels * FLOATS_PER_CHANNEL
    }

    /// Positive dimensions, and a buffer of exactly the advertised size.
    pub open spec fn wf(self) -> bool {
        &&& self.num_timesteps >= 1
        &&& self.num_rows >= 1
        &&& self.num_channels >= 1
        &&& self.data@.len() == self.num_timesteps * self.num_rows * self.floats_per_group()
    }

    /// The bit pattern at flat (timestep, row) slot `slot`, channel `c`,
    /// float offset `f` within the channel's 12-float block.
    pub open spec fn channel_value(self, slot: int, c: int, f: int) -> u32 {
        self.data@[slot * self.floats_per_group() + c * FLOATS_PER_CHANNEL + f]
    }

    /// The tensor's outer dimensions agree with the selection.
    pub open spec fn matches_selection(self, sel: Selection) -> bool {
        &&& self.num_timesteps == sel.num_timesteps
        &&& self.num_rows == sel.num_rows()
        &&& self.num_channels == sel.num_channels
    }
}

/// The group number that the read plan assigns to timestep `t`, selected
/// row slot `j`.
pub open spec fn planned_group(sel: Selection, t: int, j: int) -> int {
    group_number_spec(t, sel.row_indices@[j] as int, sel.num_baselines_per_timestep as int)
}

/// One payload block per (timestep, row) pair, each of exactly one group's
/// float count.
pub open spec fn blocks_well_sized(sel: Selection, blocks: Seq<Seq<u32>>) -> bool {
    &&& blocks.len() == sel.num_timesteps * sel.num_rows()
    &&& forall|i: int|
        0 <= i < blocks.len() ==> (#[trigger] blocks[i]).len() == sel.floats_per_group()
}

/// The relation `assemble` establishes between the selection, the payload
/// blocks in read order, and the raw tensor: the tensor's (timestep, row)
/// slot `i` holds exactly block `i`.
pub open spec fn is_assembled(
    sel: Selection,
    blocks: Seq<Seq<u32>>,
    raw: RawVisibilityTensor,
) -> bool {
    &&& raw.matches_selection(sel)
    &&& raw.wf()
    &&& forall|i: int, k: int|
        0 <= i < sel.num_timesteps * sel.num_rows() && 0 <= k < sel.floats_per_group()
            ==> raw.data@[i * sel.floats_per_group() + k] == #[trigger] blocks[i][k]
}

/// The products a well-formed selection keeps within machine bounds.
proof fn lemma_selection_products(nt: int, nrows: int, fpg: int)
    by (nonlinear_arith)
    requires
        nt >= 1,
        nrows >= 1,
        fpg >= 12,
        nt * nrows * fpg <= usize::MAX,
    ensures
        1 <= nt * nrows <= usize::MAX,
        fpg <= usize::MAX,
        (nt * nrows) * fpg == nt * nrows * fpg,
{
}

/// The ordered list of absolute group numbers to read for a selection:
/// ascending timesteps on the outside, the caller's row order (duplicates
/// kept) on the inside. Entry `t * |rows| + j` is the group number of
/// timestep `t` and selected row `row_indices[j]`; every entry is at least
/// 1.
#[verifier::loop_isolation(false)]
pub fn read_plan(sel: &Selection) -> (plan: Vec<u64>)
    requires
        sel.wf(),
    ensures
        plan@.len() == sel.num_timesteps * sel.num_rows(),
        forall|t: int, j: int|
            0 <= t < sel.num_timesteps && 0 <= j < sel.num_rows() ==> plan@[t * sel.num_rows()
                + j] == #[trigger] planned_group(*sel, t, j),
        forall|k: int| 0 <= k < plan@.len() ==> 1 <= #[trigger] plan@[k],
{
    proof {
        lemma_selection_products(
            sel.num_timesteps as int,
            sel.num_rows(),
            sel.floats_per_group(),
        );
    }
    let num_rows = sel.row_indices.len();
    let mut plan: Vec<u64> = Vec::new();
    let mut t: usize = 0;
    while t < sel.num_timesteps
        invariant
            t <= sel.num_timesteps,
            plan@.len() == t * sel.num_rows(),
            forall|tt: int, j: int|
                0 <= tt < t && 0 <= j < sel.num_rows() ==> plan@[tt * sel.num_rows() + j]
                    == #[trigger] planned_group(*sel, tt, j),
            forall|k: int| 0 <= k < plan@.len() ==> 1 <= #[trigger] plan@[k],
        decreases sel.num_timesteps - t,
    {
        let mut j: usize = 0;
        while j < num_rows
            invariant
                j <= num_rows,
                plan@.len() == t * sel.num_rows() + j,
                forall|tt: int, jj: int|
                    0 <= tt < t && 0 <= jj < sel.num_rows() ==> plan@[tt * sel.num_rows() + jj]
                        == #[trigger] planned_group(*sel, tt, jj),
                forall|jj: int|
                    0 <= jj < j ==> plan@[t * sel.num_rows() + jj] == #[trigger] planned_group(
                        *sel,
                        t as int,
                        jj,
                    ),
                forall|k: int| 0 <= k < plan@.len() ==> 1 <= #[trigger] plan@[k],
            decreases num_rows - j,
        {
            let row = sel.row_indices[j];
            proof {
                assert(t * sel.num_baselines_per_timestep <= (sel.num_timesteps - 1)
                    * sel.num_baselines_per_timestep) by (nonlinear_arith)
                    requires
                        0 <= t <= sel.num_timesteps - 1,
                        sel.num_baselines_per_timestep >= 0,
                ;
            }
            let g = group_number(t, row, sel.num_baselines_per_timestep);
            plan.push(g);
            proof {
                assert forall|tt: int, jj: int|
                    0 <= tt < t && 0 <= jj < sel.num_rows() implies plan@[tt * sel.num_rows() + jj]
                    == #[trigger] planned_group(*sel, tt, jj) by {
                    lemma_flat_index_increases(tt, jj, t as int, j as int, sel.num_rows());
                }
            }
            j += 1;
        }
        proof {
            assert((t + 1) * sel.num_rows() == t * sel.num_rows() + sel.num_rows())
                by (nonlinear_arith);
        }
        t += 1;
    }
    plan
}

/// Assembles the payload blocks, one per planned read in read order, into
/// the raw tensor. All-or-nothing: succeeds exactly when there is one block
/// per (timestep, row) pair and every block holds exactly one group's float
/// count; otherwise nothing is produced and the failure is a shape defect.
#[verifier::loop_isolation(false)]
pub fn assemble(sel: &Selection, blocks: &Vec<Vec<u32>>) -> (r: Result<
    RawVisibilityTensor,
    ExtractError,
>)
    requires
        sel.wf(),
    ensures
        r is Ok <==> blocks_well_sized(*sel, blocks.deep_view()),
        r matches Ok(raw) ==> is_assembled(*sel, blocks.deep_view(), raw),
        r is Err ==> r == Err::<RawVisibilityTensor, ExtractError>(ExtractError::Shape),
{
    proof {
        lemma_selection_products(
            sel.num_timesteps as int,
            sel.num_rows(),
            sel.floats_per_group(),
        );
    }
    let num_rows = sel.row_indices.len();
    let num_slots = sel.num_timesteps * num_rows;
    let width = sel.num_channels * FLOATS_PER_CHANNEL;
    if blocks.len() != num_slots {
        return Err(ExtractError::Shape);
    }
    let mut i: usize = 0;
    while i < num_slots
        invariant
            i <= num_slots,
            forall|ii: int|
                0 <= ii < i ==> (#[trigger] blocks.deep_view()[ii]).len() == width,
        decreases num_slots - i,
    {
        if blocks[i].len() != width {
            proof {
                assert(blocks.deep_view()[i as int].len() == blocks@[i as int]@.len());
            }
            return Err(ExtractError::Shape);
        }
        proof {
            assert(blocks.deep_view()[i as int].len() == blocks@[i as int]@.len());
        }
        i += 1;
    }
    let mut data: Vec<u32> = Vec::new();
    let mut i: usize = 0;
    while i < num_slots
        invariant
            i <= num_slots,
            data@.len() == i * width,
            forall|ii: int, kk: int|
                0 <= ii < i && 0 <= kk < width ==> data@[ii * width + kk]
                    == #[trigger] blocks.deep_view()[ii][kk],
        decreases num_slots - i,
    {
        let block = &blocks[i];
        proof {
            assert(blocks.deep_view()[i as int].len() == blocks@[i as int]@.len());
            assert(block@.len() == width);
        }
        let mut k: usize = 0;
        while k < width
            invariant
                k <= width,
                data@.len() == i * width + k,
                forall|ii: int, kk: int|
                    0 <= ii < i && 0 <= kk < width ==> data@[ii * width + kk]
                        == #[trigger] blocks.deep_view()[ii][kk],
                forall|kk: int|
                    0 <= kk < k ==> data@[i * width + kk]
                        == #[trigger] blocks.deep_view()[i as int][kk],
            decreases width - k,
        {
            data.push(block[k]);
            proof {
                assert forall|ii: int, kk: int|
                    0 <= ii < i && 0 <= kk < width implies data@[ii * width + kk]
                    == #[trigger] blocks.deep_view()[ii][kk] by {
                    lemma_flat_index_increases(ii, kk, i as int, k as int, width as int);
                }
            }
            k += 1;
        }
        proof {
            assert((i + 1) * width == i * width + width) by (nonlinear_arith);
        }
        i += 1;
    }
    let raw = RawVisibilityTensor {
        num_timesteps: sel.num_timesteps,
        num_rows,
        num_channels: sel.num_channels,
        data,
    };
    Ok(raw)
}

/// Extraction is deterministic: for one selection and one sequence of
/// payload blocks, any two assembled raw tensors are bit-identical.
pub proof fn lemma_extraction_deterministic(
    sel: Selection,
    blocks: Seq<Seq<u32>>,
    raw_a: RawVisibilityTensor,
    raw_b: RawVisibilityTensor,
)
    requires
        sel.wf(),
        is_assembled(sel, blocks, raw_a),
        is_assembled(sel, blocks, raw_b),
    ensures
        raw_a.num_timesteps == raw_b.num_timesteps,
        raw_a.num_rows == raw_b.num_rows,
        raw_a.num_channels == raw_b.num_channels,
        raw_a.data@ == raw_b.data@,
{
    let slots = sel.num_timesteps * sel.num_rows();
    let width = sel.floats_per_group();
    lemma_selection_products(sel.num_timesteps as int, sel.num_rows(), width);
    assert(raw_a.data@.len() == slots * width);
    assert(raw_b.data@.len() == slots * width);
    assert forall|idx: int| 0 <= idx < raw_a.data@.len() implies raw_a.data@[idx]
        == raw_b.data@[idx] by {
        lemma_flat_index_decompose(idx, slots, width);
        let i = idx / width;
        let k = idx % width;
        assert(raw_a.data@[i * width + k] == blocks[i][k]);
        assert(raw_b.data@[i * width + k] == blocks[i][k]);
    }
    assert(raw_a.data@ =~= raw_b.data@);
}

} // verus!
