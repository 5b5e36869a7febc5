//! Reducing the raw tensor to the selected polarizations: each channel's
//! 12-float block holds four 3-float polarization records (real, imaginary,
//! weight); only the real component of the selected records is kept.

use vstd::prelude::*;
use crate::layout::{lemma_flat_index_in_bounds, lemma_flat_index_increases};
use crate::selection::FLOATS_PER_CHANNEL;
use crate::tensor::RawVisibilityTensor;

verus! {

/// Which polarizations the output keeps: the first alone, or the first and
/// the fourth.
#[derive(Debug, Clone, Copy, PartialEq, Eq, Structural)]
pub enum PolarizationMode {
    Single,
    Dual,
}

impl PolarizationMode {
    /// Number of polarizations the output carries per channel.
    pub open spec fn count_spec(self) -> int {
        match self {
            PolarizationMode::Single => 1,
            PolarizationMode::Dual => 2,
        }
    }

    /// Executable twin of `count_spec`.
    pub fn count(&self) -> (n: usize)
        ensures
            n == self.count_spec(),
    {
        match self {
            PolarizationMode::Single => 1,
            PolarizationMode::Dual => 2,
        }
    }
}

/// Offset of output polarization `p`'s real component within a channel's
/// 12-float block: polarization 0's real sits at 0, polarization 3's at
/// 3 records of 3 floats each.
pub open spec fn pol_real_offset(p: int) -> int {
    9 * p
}

/// The final tensor: dimensions (timestep, selected row, channel) of single
/// real values, or (timestep, selected row, channel, 2) of two, flattened
/// row-major into `data`. Each element is the bit pattern of one 32-bit
/// float.
pub struct OutputTensor {
    pub num_timesteps: usize,
    pub num_rows: usize,
    pub num_channels: usize,
    pub num_polarizations: usize,
    pub data: Vec<u32>,
}

impl OutputTensor {
    /// One or two polarizations, and a buffer of exactly the advertised
    /// size.
    pub open spec fn wf(self) -> bool {
        &&& self.num_polarizations == 1 || self.num_polarizations == 2
        &&& self.data@.len() == self.num_timesteps * self.num_rows * self.num_channels
            * self.num_polarizations
    }

    /// The bit pattern at flat (timestep, row) slot `slot`, channel `c`,
    /// output polarization `p`.
    pub open spec fn value(self, slot: int, c: int, p: int) -> u32 {
        self.data@[(slot * self.num_channels + c) * self.num_polarizations + p]
    }

    /// Reads the value at timestep `t`, selected-row slot `r`, channel `c`,
    /// output polarization `p`.
    pub fn value_at(&self, t: usize, r: usize, c: usize, p: usize) -> (v: u32)
        requires
            self.wf(),
            t < self.num_timesteps,
            r < self.num_rows,
            c < self.num_channels,
            p < self.num_polarizations,
        ensures
            v == self.value(t * self.num_rows + r, c as int, p as int),
    {
        let total = self.data.len();
        proof {
            lemma_output_index(
                t as int,
                r as int,
                c as int,
                p as int,
                self.num_timesteps as int,
                self.num_rows as int,
                self.num_channels as int,
                self.num_polarizations as int,
            );
        }
        let idx = ((t * self.num_rows + r) * self.num_channels + c) * self.num_polarizations + p;
        self.data[idx]
    }
}

/// Position and bounds of one output element within the flattened buffer.
proof fn lemma_output_index(t: int, r: int, c: int, p: int, nt: int, nr: int, nc: int, npol: int)
    by (nonlinear_arith)
    requires
        0 <= t < nt,
        0 <= r < nr,
        0 <= c < nc,
        0 <= p < npol,
    ensures
        t * nr + r < nt * nr,
        (t * nr + r) * nc + c < nt * nr * nc,
        0 <= ((t * nr + r) * nc + c) * npol + p < nt * nr * nc * npol,
        nt * nr <= nt * nr * nc * npol,
        nt * nr * nc <= nt * nr * nc * npol,
{
}

/// Keeps, for every (timestep, row) slot and channel of the raw tensor, the
/// real component of the selected polarizations and discards everything
/// else. Total: never fails on a well-formed raw tensor.
#[verifier::loop_isolation(false)]
pub fn select_polarizations(raw: &RawVisibilityTensor, mode: PolarizationMode) -> (out:
    OutputTensor)
    requires
        raw.wf(),
    ensures
        out.wf(),
        out.num_timesteps == raw.num_timesteps,
        out.num_rows == raw.num_rows,
        out.num_channels == raw.num_channels,
        out.num_polarizations == mode.count_spec(),
        forall|slot: int, c: int, p: int|
            0 <= slot < raw.num_timesteps * raw.num_rows && 0 <= c < raw.num_channels && 0 <= p
                < mode.count_spec() ==> #[trigger] out.value(slot, c, p) == raw.channel_value(
                slot,
                c,
                pol_real_offset(p),
            ),
{
    let total = raw.data.len();
    proof {
        lemma_raw_products(
            raw.num_timesteps as int,
            raw.num_rows as int,
            raw.num_channels as int,
            total as int,
        );
    }
    let num_slots = raw.num_timesteps * raw.num_rows;
    let width = raw.num_channels * FLOATS_PER_CHANNEL;
    let npol = mode.count();
    let mut data: Vec<u32> = Vec::new();
    let mut slot: usize = 0;
    while slot < num_slots
        invariant
            slot <= num_slots,
            data@.len() == slot * raw.num_channels * npol,
            forall|s: int, cc: int, pp: int|
                0 <= s < slot && 0 <= cc < raw.num_channels && 0 <= pp < npol ==> data@[(s
                    * raw.num_channels + cc) * npol + pp] == #[trigger] raw.channel_value(
                    s,
                    cc,
                    pol_real_offset(pp),
                ),
        decreases num_slots - slot,
    {
        let mut c: usize = 0;
        while c < raw.num_channels
            invariant
                c <= raw.num_channels,
                data@.len() == (slot * raw.num_channels + c) * npol,
                forall|s: int, cc: int, pp: int|
                    0 <= s < slot && 0 <= cc < raw.num_channels && 0 <= pp < npol ==> data@[(s
                        * raw.num_channels + cc) * npol + pp] == #[trigger] raw.channel_value(
                        s,
                        cc,
                        pol_real_offset(pp),
                    ),
                forall|cc: int, pp: int|
                    0 <= cc < c && 0 <= pp < npol ==> data@[(slot * raw.num_channels + cc) * npol
                        + pp] == #[trigger] raw.channel_value(
                        slot as int,
                        cc,
                        pol_real_offset(pp),
                    ),
            decreases raw.num_channels - c,
        {
            proof {
                lemma_flat_index_in_bounds(
                    slot as int,
                    c * FLOATS_PER_CHANNEL + 9,
                    num_slots as int,
                    width as int,
                );
                assert(slot * raw.num_channels * npol + c * npol + npol <= num_slots
                    * raw.num_channels * npol) by (nonlinear_arith)
                    requires
                        0 <= slot < num_slots,
                        0 <= c < raw.num_channels,
                        1 <= npol,
                ;
            }
            let base = slot * width + c * FLOATS_PER_CHANNEL;
            data.push(raw.data[base]);
            if npol == 2 {
                data.push(raw.data[base + 9]);
            }
            proof {
                assert forall|s: int, cc: int, pp: int|
                    0 <= s < slot && 0 <= cc < raw.num_channels && 0 <= pp < npol implies data@[(s
                    * raw.num_channels + cc) * npol + pp] == #[trigger] raw.channel_value(
                    s,
                    cc,
                    pol_real_offset(pp),
                ) by {
                    assert(s * raw.num_channels + cc < slot * raw.num_channels + c)
                        by (nonlinear_arith)
                        requires
                            0 <= s < slot,
                            0 <= cc < raw.num_channels,
                            0 <= c,
                    ;
                    lemma_flat_index_increases(
                        s * raw.num_channels + cc,
                        pp,
                        slot * raw.num_channels + c,
                        0,
                        npol as int,
                    );
                }
                assert forall|cc: int, pp: int|
                    0 <= cc < c + 1 && 0 <= pp < npol implies data@[(slot * raw.num_channels + cc)
                    * npol + pp] == #[trigger] raw.channel_value(
                    slot as int,
                    cc,
                    pol_real_offset(pp),
                ) by {
                    if cc < c {
                        lemma_flat_index_increases(
                            slot * raw.num_channels + cc,
                            pp,
                            slot * raw.num_channels + c,
                            0,
                            npol as int,
                        );
                    }
                }
            }
            c += 1;
            proof {
                assert((slot * raw.num_channels + c) * npol == (slot * raw.num_channels + (c - 1))
                    * npol + npol) by (nonlinear_arith);
            }
        }
        proof {
            assert((slot + 1) * raw.num_channels * npol == (slot * raw.num_channels
                + raw.num_channels) * npol) by (nonlinear_arith);
        }
        slot += 1;
    }
    proof {
        assert(num_slots * raw.num_channels * npol == raw.num_timesteps * raw.num_rows
            * raw.num_channels * npol) by (nonlinear_arith)
            requires
                num_slots == raw.num_timesteps * raw.num_rows,
        ;
    }
    OutputTensor {
        num_timesteps: raw.num_timesteps,
        num_rows: raw.num_rows,
        num_channels: raw.num_channels,
        num_polarizations: npol,
        data,
    }
}

/// Bounds that a well-formed raw tensor's buffer length puts on the
/// products of its dimensions.
proof fn lemma_raw_products(nt: int, nrows: int, nc: int, len: int)
    by (nonlinear_arith)
    requires
        nt >= 1,
        nrows >= 1,
        nc >= 1,
        len == nt * nrows * (nc * 12),
        len <= usize::MAX,
    ensures
        1 <= nt * nrows <= usize::MAX,
        nc * 12 <= usize::MAX,
        (nt * nrows) * (nc * 12) == len,
        nt * nrows * nc <= usize::MAX,
{
}

} // verus!
