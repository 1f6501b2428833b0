//! The low-discrepancy sampling table: one scrambled Sobol point of four
//! dimensions per `(sample_index, dimension_set)` pair, flattened row-major
//! into 32-bit words ready for upload as a read-only GPU buffer.
//!
//! Generation is eager and deterministic: the table is a function of the
//! sample budget, the number of dimension sets and the scramble seed alone,
//! so two tables built from the same parameters are bit-identical.

use vstd::prelude::*;

verus! {

/// The sample budget the Sobol sequence supports: `sobol_burley` computes
/// unspecified values for indices at or beyond `2^16`.
pub const MAX_SOBOL_SAMPLES: u32 = 65536;

/// The number of four-dimensional sets the Sobol sequence offers
/// (`sobol_burley::NUM_DIMENSION_SETS_4D`).
pub const MAX_DIMENSION_SETS: u32 = 64;

/// The four 32-bit words of one scrambled Sobol point, a pure function of
/// its arguments.
pub uninterp spec fn sobol_point(sample_index: u32, dimension_set: u32, seed: u32) -> Seq<u32>;

/// Relies on `sobol_burley::sample_4d`: four dimensions of one Owen-scrambled
/// Sobol sample, deterministic in `(sample_index, dimension_set, seed)`.  It
/// panics for `dimension_set >= NUM_DIMENSION_SETS_4D` and is unspecified for
/// `sample_index >= 2^16`, so both are excluded here.
#[verifier::external_body]
fn sobol_point_words(sample_index: u32, dimension_set: u32, seed: u32) -> (r: Vec<u32>)
    requires
        sample_index < MAX_SOBOL_SAMPLES,
        dimension_set < MAX_DIMENSION_SETS,
    ensures
        r@ == sobol_point(sample_index, dimension_set, seed),
        r@.len() == 4,
{
    let point = sobol_burley::sample_4d(sample_index, dimension_set, seed);
    let words: &[u32] = bytemuck::cast_slice(&point[..]);
    words.to_vec()
}

/// One table row: the points of sample `i` for the first `d` dimension sets,
/// concatenated.
pub open spec fn table_row(i: u32, seed: u32, d: nat) -> Seq<u32>
    decreases d,
{
    if d == 0 {
        Seq::empty()
    } else {
        table_row(i, seed, (d - 1) as nat) + sobol_point(i, ((d - 1) as nat) as u32, seed)
    }
}

/// The rows of the first `n` samples, concatenated: the whole table is a
/// function of `(n, dims, seed)` alone.
pub open spec fn table_prefix(n: nat, dims: u32, seed: u32) -> Seq<u32>
    decreases n,
{
    if n == 0 {
        Seq::empty()
    } else {
        table_prefix((n - 1) as nat, dims, seed) + table_row(((n - 1) as nat) as u32, seed, dims as nat)
    }
}

/// The full sampling table for `n` samples over `dims` dimension sets.
pub open spec fn sample_table(n: u32, dims: u32, seed: u32) -> Seq<u32> {
    table_prefix(n as nat, dims, seed)
}

/// Generates the sampling table eagerly: `dims * 4` words per sample, one
/// scrambled Sobol point per `(sample, dimension set)` pair.
pub fn generate_sample_table(n: u32, dims: u32, seed: u32) -> (r: Vec<u32>)
    requires
        n <= MAX_SOBOL_SAMPLES,
        dims <= MAX_DIMENSION_SETS,
    ensures
        r@ == sample_table(n, dims, seed),
        r@.len() == n * dims * 4,
{
    let mut out: Vec<u32> = Vec::new();
    let mut i: u32 = 0;
    while i < n
        invariant
            i <= n,
            n <= MAX_SOBOL_SAMPLES,
            dims <= MAX_DIMENSION_SETS,
            out@ == table_prefix(i as nat, dims, seed),
            out@.len() == i * dims * 4,
        decreases n - i,
    {
        let mut d: u32 = 0;
        while d < dims
            invariant
                d <= dims,
                i < n,
                n <= MAX_SOBOL_SAMPLES,
                dims <= MAX_DIMENSION_SETS,
                out@ == table_prefix(i as nat, dims, seed) + table_row(i, seed, d as nat),
                out@.len() == (i * dims + d) * 4,
            decreases dims - d,
        {
            let point = sobol_point_words(i, d, seed);
            let ghost before = out@;
            out.push(point[0]);
            out.push(point[1]);
            out.push(point[2]);
            out.push(point[3]);
            proof {
                assert(out@ =~= before + point@);
            }
            d = d + 1;
        }
        proof {
            assert(out@ =~= table_prefix((i + 1) as nat, dims, seed));
            assert((i + 1) * dims == i * dims + dims) by (nonlinear_arith);
        }
        i = i + 1;
    }
    proof {
        assert(out@ =~= sample_table(n, dims, seed));
    }
    out
}

/// Generation is deterministic: two tables produced from identical
/// parameters are bit-identical.
pub proof fn lemma_table_deterministic(t1: Seq<u32>, t2: Seq<u32>, n: u32, dims: u32, seed: u32)
    requires
        t1 == sample_table(n, dims, seed),
        t2 == sample_table(n, dims, seed),
    ensures
        t1 == t2,
{
}

} // verus!
