//! Supersampling strategies and the parser for their textual form.
//!
//! A strategy is written `method:resolution`, for example `uniform:2`
//! or `jitter:4`.  Either strategy spans an `n`-by-`n` grid of
//! sub-pixel cells; the uniform grid samples each cell at its lower
//! left corner, the jitter grid at a random point inside the cell.
//! The random offsets, being floating point, are produced by the
//! caller; this module fixes the grid itself: which cells exist and
//! in which order they are emitted.

use vstd::prelude::*;
use vstd::string::StrSliceExecFns;
use vstd::string::StringExecFns;

use crate::text::{
    find_from,
    is_usize_literal,
    lemma_seg_end,
    parse_usize_range,
    seg_end,
    str_range_eq,
    usize_literal_value,
};

verus! {

/// A supersampling strategy together with its grid resolution.
#[derive(Clone, Copy, Debug, PartialEq, Eq, Structural)]
pub enum SuperSampling {
    Uniform(usize),
    Jitter(usize),
}

/// Why a supersampling argument was rejected.
#[derive(Debug)]
pub struct SSAADecodeError {
    pub error: String,
}

impl SSAADecodeError {
    /// An error carrying the given description.
    pub fn new(error: String) -> (e: SSAADecodeError)
        ensures
            e.error@ == error@,
    {
        SSAADecodeError { error }
    }
}

/// End of the method name: the position of the first `':'`, or the end
/// of the string.
pub open spec fn method_end(s: Seq<char>) -> int {
    seg_end(s, ':', 0)
}

/// The method name: everything before the first `':'`.
pub open spec fn ssaa_method(s: Seq<char>) -> Seq<char> {
    s.subrange(0, method_end(s))
}

/// Whether a resolution argument follows the method name.
pub open spec fn ssaa_has_arg(s: Seq<char>) -> bool {
    method_end(s) < s.len()
}

/// The resolution argument: everything between the first `':'` and the
/// second `':'` or the end of the string.
pub open spec fn ssaa_arg(s: Seq<char>) -> Seq<char> {
    s.subrange(method_end(s) + 1, seg_end(s, ':', method_end(s) + 1))
}

impl SuperSampling {
    /// The grid resolution of either strategy.
    pub open spec fn resolution_spec(&self) -> usize {
        match *self {
            SuperSampling::Uniform(r) => r,
            SuperSampling::Jitter(r) => r,
        }
    }

    /// Reads a strategy from its textual form `method:resolution`.
    /// The method must be `uniform` or `jitter`; the resolution must be
    /// a decimal number that fits in a `usize`.  Each malformed input
    /// is rejected with a message naming what was wrong.
    pub fn from_str(s: &str) -> (r: Result<SuperSampling, SSAADecodeError>)
        ensures
            ssaa_method(s@) != "uniform"@ && ssaa_method(s@) != "jitter"@ ==> (r matches Err(e)
                && e.error@ == "unknown method"@),
            ssaa_method(s@) == "uniform"@ && !ssaa_has_arg(s@) ==> (r matches Err(e) && e.error@
                == "no arguments supplied, need resolution for uniform"@),
            ssaa_method(s@) == "jitter"@ && !ssaa_has_arg(s@) ==> (r matches Err(e) && e.error@
                == "no arguments supplied, need resolution for jitter"@),
            (ssaa_method(s@) == "uniform"@ || ssaa_method(s@) == "jitter"@) && ssaa_has_arg(s@)
                && !is_usize_literal(ssaa_arg(s@)) ==> (r matches Err(e) && e.error@
                == "resolution has to be an integer"@),
            ssaa_method(s@) == "uniform"@ && ssaa_has_arg(s@) && is_usize_literal(ssaa_arg(s@))
                ==> (r matches Ok(ss) && ss == SuperSampling::Uniform(
                usize_literal_value(ssaa_arg(s@)) as usize,
            )),
            ssaa_method(s@) == "jitter"@ && ssaa_has_arg(s@) && is_usize_literal(ssaa_arg(s@))
                ==> (r matches Ok(ss) && ss == SuperSampling::Jitter(
                usize_literal_value(ssaa_arg(s@)) as usize,
            )),
    {
        let n = s.unicode_len();
        let m_end = find_from(s, 0, ':');
        proof {
            lemma_seg_end(s@, ':', 0);
            reveal_strlit("uniform");
            reveal_strlit("jitter");
            assert("uniform"@.len() != "jitter"@.len());
            assert("uniform"@ != "jitter"@);
        }
        let is_uniform = str_range_eq(s, 0, m_end, "uniform");
        let is_jitter = str_range_eq(s, 0, m_end, "jitter");
        if !is_uniform && !is_jitter {
            return Err(SSAADecodeError::new(String::from_str("unknown method")));
        }
        if m_end == n {
            if is_uniform {
                return Err(
                    SSAADecodeError::new(
                        String::from_str("no arguments supplied, need resolution for uniform"),
                    ),
                );
            }
            return Err(
                SSAADecodeError::new(
                    String::from_str("no arguments supplied, need resolution for jitter"),
                ),
            );
        }
        let a_end = find_from(s, m_end + 1, ':');
        proof {
            lemma_seg_end(s@, ':', m_end + 1);
        }
        match parse_usize_range(s, m_end + 1, a_end) {
            Some(res) => {
                if is_uniform {
                    Ok(SuperSampling::Uniform(res))
                } else {
                    Ok(SuperSampling::Jitter(res))
                }
            },
            None => Err(SSAADecodeError::new(String::from_str("resolution has to be an integer"))),
        }
    }

    /// The grid resolution of either strategy.
    pub fn resolution(&self) -> (r: usize)
        ensures
            r == self.resolution_spec(),
    {
        match self {
            SuperSampling::Uniform(r) => *r,
            SuperSampling::Jitter(r) => *r,
        }
    }

    /// How many sample points the strategy emits per pixel.
    pub fn sample_count(&self) -> (n: usize)
        requires
            self.resolution_spec() * self.resolution_spec() <= usize::MAX,
        ensures
            n == self.resolution_spec() * self.resolution_spec(),
    {
        let r = self.resolution();
        r * r
    }

    /// The grid cells the strategy samples, in the order they are
    /// emitted.  Both strategies walk the same cells; they differ only
    /// in where inside each cell the caller places the sample point.
    pub fn sample_cells(&self) -> (cells: Vec<(usize, usize)>)
        requires
            self.resolution_spec() * self.resolution_spec() <= usize::MAX,
        ensures
            cells@.len() == self.resolution_spec() * self.resolution_spec(),
            forall|k: int|
                0 <= k < cells@.len() ==> #[trigger] cells@[k] == (
                    (k / (self.resolution_spec() as int)) as usize,
                    (k % (self.resolution_spec() as int)) as usize,
                ),
    {
        uniform_grid_cells(self.resolution())
    }
}

/// The cells of an `n`-by-`n` sampling grid in emission order: cell
/// `k` covers row `k / n` and column `k % n` of the grid, so the rows
/// are walked in order and the columns within each row.
pub fn uniform_grid_cells(resolution: usize) -> (cells: Vec<(usize, usize)>)
    requires
        resolution * resolution <= usize::MAX,
    ensures
        cells@.len() == resolution * resolution,
        forall|k: int|
            0 <= k < cells@.len() ==> #[trigger] cells@[k] == (
                (k / (resolution as int)) as usize,
                (k % (resolution as int)) as usize,
            ),
{
    let count = resolution * resolution;
    let mut cells: Vec<(usize, usize)> = Vec::new();
    let mut k: usize = 0;
    while k < count
        invariant
            count == resolution * resolution,
            0 <= k <= count,
            cells@.len() == k,
            forall|m: int|
                0 <= m < k ==> #[trigger] cells@[m] == (
                    (m / (resolution as int)) as usize,
                    (m % (resolution as int)) as usize,
                ),
        decreases count - k,
    {
        proof {
            if resolution == 0 {
                assert(count == 0);
            }
        }
        cells.push((k / resolution, k % resolution));
        k = k + 1;
    }
    cells
}

} // verus!
