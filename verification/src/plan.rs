//! Planning of one simulation run: how the requested trials are split over
//! parallel workers, and which seed each worker's random stream starts
//! from.  Trials are independent, so the split only has to hand out every
//! trial exactly once, keep the chunks contiguous and balanced, and give
//! every worker a stream of its own; all of that is stated and proved here.

use vstd::prelude::*;
use vstd::arithmetic::div_mod::lemma_fundamental_div_mod;
use vstd::arithmetic::div_mod::lemma_mod_division_less_than_divisor;
use crate::StackError;

verus! {

/// How many chunks a split of `n` trials over `workers` workers makes: one
/// per worker, clamped to `n` so that no worker gets an empty chunk.
pub open spec fn num_chunks(n: int, workers: int) -> int {
    if workers <= n {
        workers
    } else {
        n
    }
}

/// The size of chunk `i` of a split of `n` trials into `k` chunks: every
/// chunk gets `n / k` trials, and the remainder is handed out one trial
/// each to the first `n % k` chunks.
pub open spec fn chunk_size_at(n: int, k: int, i: int) -> int {
    n / k + if i < n % k {
        1int
    } else {
        0int
    }
}

/// The number of trials in the first `j` chunks of a split of `n` trials
/// into `k` chunks.
pub open spec fn chunk_prefix_total(n: int, k: int, j: int) -> int
    decreases j,
{
    if j <= 0 {
        0
    } else {
        chunk_prefix_total(n, k, j - 1) + chunk_size_at(n, k, j - 1)
    }
}

/// The first `j` chunks hold `j * (n / k)` trials plus one extra for each
/// remainder trial already handed out.
pub proof fn lemma_chunk_prefix_total(n: int, k: int, j: int)
    requires
        1 <= k <= n,
        0 <= j <= k,
    ensures
        chunk_prefix_total(n, k, j) == j * (n / k) + (if j <= n % k {
            j
        } else {
            n % k
        }),
    decreases j,
{
    lemma_mod_division_less_than_divisor(n, k);
    if j > 0 {
        lemma_chunk_prefix_total(n, k, j - 1);
        let q: int = n / k;
        assert(j * q == (j - 1) * q + q) by (nonlinear_arith);
    } else {
        assert(0 * (n / k) == 0) by (nonlinear_arith);
    }
}

/// No trial is dropped and none is double-counted: a split of `n` trials
/// into `k` chunks hands out exactly `n` trials.
pub proof fn lemma_chunk_total(n: int, k: int)
    requires
        1 <= k <= n,
    ensures
        chunk_prefix_total(n, k, k) == n,
{
    lemma_chunk_prefix_total(n, k, k);
    lemma_fundamental_div_mod(n, k);
    lemma_mod_division_less_than_divisor(n, k);
}

/// Partition invariance: whatever two worker counts are chosen, the splits
/// cover the same trials — both hand out exactly the `n` requested.
pub proof fn lemma_partition_total_invariant(n: int, w1: int, w2: int)
    requires
        1 <= n,
        1 <= w1,
        1 <= w2,
    ensures
        chunk_prefix_total(n, num_chunks(n, w1), num_chunks(n, w1)) == chunk_prefix_total(
            n,
            num_chunks(n, w2),
            num_chunks(n, w2),
        ),
{
    lemma_chunk_total(n, num_chunks(n, w1));
    lemma_chunk_total(n, num_chunks(n, w2));
}

/// The sum of a sequence of chunk sizes.
pub open spec fn trial_total(s: Seq<usize>) -> int
    decreases s.len(),
{
    if s.len() == 0 {
        0
    } else {
        trial_total(s.drop_last()) + s.last()
    }
}

/// Splits `trial_count` trials into contiguous chunks, one per worker: each
/// chunk gets `trial_count / k` trials, the remainder goes one trial each to
/// the first chunks, no chunk is empty, and the chunk sizes sum to exactly
/// `trial_count`.
pub fn chunk_sizes(trial_count: usize, worker_count: usize) -> (r: Vec<usize>)
    requires
        trial_count >= 1,
        worker_count >= 1,
    ensures
        r@.len() == num_chunks(trial_count as int, worker_count as int),
        forall|i: int|
            0 <= i < r@.len() ==> r@[i] as int == chunk_size_at(
                trial_count as int,
                r@.len() as int,
                i,
            ),
        forall|i: int| 0 <= i < r@.len() ==> 1 <= r@[i],
        trial_total(r@) == trial_count as int,
{
    let k: usize = if worker_count <= trial_count {
        worker_count
    } else {
        trial_count
    };
    let q: usize = trial_count / k;
    let rem: usize = trial_count % k;
    proof {
        lemma_fundamental_div_mod(trial_count as int, k as int);
        lemma_mod_division_less_than_divisor(trial_count as int, k as int);
        if rem >= 1 {
            assert(k as int * q as int >= q as int) by (nonlinear_arith)
                requires
                    q >= 0,
                    k >= 1,
            ;
        }
        assert(q >= 1) by (nonlinear_arith)
            requires
                trial_count as int == k as int * q as int + rem as int,
                0 <= rem as int,
                (rem as int) < (k as int),
                k as int <= trial_count as int,
                q as int >= 0,
        ;
    }
    let mut out: Vec<usize> = Vec::new();
    for i in 0..k
        invariant
            k == num_chunks(trial_count as int, worker_count as int),
            1 <= k <= trial_count,
            q == trial_count as int / k as int,
            rem == trial_count as int % k as int,
            rem >= 1 ==> q + 1 <= trial_count,
            q >= 1,
            out@.len() == i,
            forall|j: int|
                0 <= j < i ==> out@[j] as int == chunk_size_at(trial_count as int, k as int, j),
            trial_total(out@) == chunk_prefix_total(trial_count as int, k as int, i as int),
    {
        let size: usize = if i < rem {
            q + 1
        } else {
            q
        };
        let ghost prev = out@;
        out.push(size);
        proof {
            assert(out@.drop_last() =~= prev);
        }
    }
    proof {
        lemma_chunk_total(trial_count as int, k as int);
    }
    out
}

/// The seed of the worker at index `i`: the base seed advanced by the
/// index, wrapping modulo 2^64 — a counter scheme that gives every worker a
/// random stream of its own.
pub open spec fn seed_at(base: u64, i: int) -> u64 {
    ((base + i) % 0x1_0000_0000_0000_0000) as u64
}

/// Two distinct worker indices never get the same seed: the counter wraps
/// only after 2^64 workers, far more than can be asked for.
pub proof fn lemma_seeds_distinct(base: u64, i: int, j: int)
    requires
        0 <= i < j <= u64::MAX,
    ensures
        seed_at(base, i) != seed_at(base, j),
{
    let m: int = 0x1_0000_0000_0000_0000;
    let a: int = base + i;
    let b: int = base + j;
    if a < m {
        assert(a % m == a);
        if b < m {
            assert(b % m == b);
        } else {
            assert(b - m < m);
            assert((b - m) + m == b);
            assert(b % m == b - m) by {
                lemma_fundamental_div_mod(b, m);
                lemma_mod_division_less_than_divisor(b, m);
                assert(b / m == 1) by (nonlinear_arith)
                    requires
                        m <= b < 2 * m,
                        b == m * (b / m) + b % m,
                        0 <= b % m < m,
                ;
            }
        }
    } else {
        assert(a - m < m);
        assert(a % m == a - m) by {
            lemma_fundamental_div_mod(a, m);
            lemma_mod_division_less_than_divisor(a, m);
            assert(a / m == 1) by (nonlinear_arith)
                requires
                    m <= a < 2 * m,
                    a == m * (a / m) + a % m,
                    0 <= a % m < m,
            ;
        }
        assert(b - m < m);
        assert(b % m == b - m) by {
            lemma_fundamental_div_mod(b, m);
            lemma_mod_division_less_than_divisor(b, m);
            assert(b / m == 1) by (nonlinear_arith)
                requires
                    m <= b < 2 * m,
                    b == m * (b / m) + b % m,
                    0 <= b % m < m,
            ;
        }
    }
}

/// One seed per worker, derived from the base seed by the counter scheme.
pub fn worker_seeds(base_seed: u64, count: usize) -> (r: Vec<u64>)
    ensures
        r@.len() == count,
        forall|i: int| 0 <= i < count ==> r@[i] == seed_at(base_seed, i),
{
    let mut out: Vec<u64> = Vec::new();
    for i in 0..count
        invariant
            out@.len() == i,
            forall|j: int| 0 <= j < i ==> out@[j] == seed_at(base_seed, j),
    {
        let iv: u64 = i as u64;
        let s: u64 = if iv <= u64::MAX - base_seed {
            base_seed + iv
        } else {
            iv - (u64::MAX - base_seed) - 1
        };
        proof {
            let m: int = 0x1_0000_0000_0000_0000;
            let a: int = base_seed + iv;
            if a < m {
                assert(a % m == a);
            } else {
                lemma_fundamental_div_mod(a, m);
                lemma_mod_division_less_than_divisor(a, m);
                assert(a / m == 1) by (nonlinear_arith)
                    requires
                        m <= a < 2 * m,
                        a == m * (a / m) + a % m,
                        0 <= a % m < m,
                ;
            }
        }
        out.push(s);
    }
    out
}


/// The plan of one simulation run: how many trials each worker runs, and
/// the seed that each worker's own random stream starts from.
#[derive(Debug)]
pub struct SimulationPlan {
    pub chunks: Vec<usize>,
    pub seeds: Vec<u64>,
}

impl SimulationPlan {
    /// One seed per chunk, at least one chunk, no chunk empty, and no two
    /// workers sharing a seed.
    pub open spec fn wf(self) -> bool {
        &&& self.chunks@.len() == self.seeds@.len()
        &&& self.chunks@.len() >= 1
        &&& forall|i: int| 0 <= i < self.chunks@.len() ==> 1 <= self.chunks@[i]
        &&& forall|i: int, j: int|
            0 <= i < j < self.seeds@.len() ==> self.seeds@[i] != self.seeds@[j]
    }

    /// The number of trials the plan hands out in all.
    pub open spec fn total(self) -> int {
        trial_total(self.chunks@)
    }
}

/// The effective worker count of a run: a zero worker count is treated as
/// one worker, and a count above the trial count is clamped down so that no
/// worker gets an empty chunk.
pub open spec fn effective_workers(trial_count: int, worker_count: int) -> int {
    num_chunks(
        trial_count,
        if worker_count >= 1 {
            worker_count
        } else {
            1int
        },
    )
}

/// What a plan built from the given trial count, worker count and base seed
/// holds, chunk by chunk and seed by seed.
pub open spec fn plan_matches(
    p: SimulationPlan,
    trial_count: int,
    worker_count: int,
    base_seed: u64,
) -> bool {
    let k = effective_workers(trial_count, worker_count);
    &&& p.chunks@.len() == k
    &&& p.seeds@.len() == k
    &&& forall|i: int| 0 <= i < k ==> p.chunks@[i] as int == chunk_size_at(trial_count, k, i)
    &&& forall|i: int| 0 <= i < k ==> p.seeds@[i] == seed_at(base_seed, i)
}

/// Plans one simulation run.  A zero trial count is rejected outright; a
/// valid request is answered with a plan that covers every trial exactly
/// once, in balanced contiguous chunks, each chunk under a seed of its own
/// derived from the base seed by the counter scheme.
pub fn plan_simulation(trial_count: usize, worker_count: usize, base_seed: u64) -> (r: Result<
    SimulationPlan,
    StackError,
>)
    ensures
        r is Ok <==> trial_count >= 1,
        r matches Err(e) ==> e == StackError::InvalidArgument,
        r matches Ok(p) ==> plan_matches(p, trial_count as int, worker_count as int, base_seed),
        r matches Ok(p) ==> p.wf(),
        r matches Ok(p) ==> p.total() == trial_count as int,
{
    if trial_count == 0 {
        return Err(StackError::InvalidArgument);
    }
    let w: usize = if worker_count == 0 {
        1
    } else {
        worker_count
    };
    let chunks = chunk_sizes(trial_count, w);
    let count: usize = chunks.len();
    let seeds = worker_seeds(base_seed, count);
    let p = SimulationPlan { chunks, seeds };
    proof {
        assert forall|i: int, j: int|
            0 <= i < j < p.seeds@.len() implies p.seeds@[i] != p.seeds@[j] by {
            lemma_seeds_distinct(base_seed, i, j);
        }
    }
    Ok(p)
}

/// The plan is a function of the trial count, the worker count and the base
/// seed alone: two plans built from the same three inputs split the trials
/// identically and seed every worker identically.  Everything downstream of
/// the plan is therefore driven by the same chunk sizes and the same
/// streams whenever the caller fixes the seed.
pub proof fn lemma_plan_deterministic(
    p1: SimulationPlan,
    p2: SimulationPlan,
    trial_count: int,
    worker_count: int,
    base_seed: u64,
)
    requires
        plan_matches(p1, trial_count, worker_count, base_seed),
        plan_matches(p2, trial_count, worker_count, base_seed),
    ensures
        p1.chunks@ == p2.chunks@,
        p1.seeds@ == p2.seeds@,
{
    assert forall|i: int| 0 <= i < p1.chunks@.len() implies p1.chunks@[i] == p2.chunks@[i] by {
        assert(p1.chunks@[i] as int == chunk_size_at(
            trial_count,
            effective_workers(trial_count, worker_count),
            i,
        ));
    }
    assert(p1.chunks@ =~= p2.chunks@);
    assert forall|i: int| 0 <= i < p1.seeds@.len() implies p1.seeds@[i] == p2.seeds@[i] by {
        assert(p1.seeds@[i] == seed_at(base_seed, i));
        assert(p2.seeds@[i] == seed_at(base_seed, i));
    }
    assert(p1.seeds@ =~= p2.seeds@);
}

/// Relies on rand::random: one 64-bit draw from the thread-local generator,
/// which is seeded from operating-system entropy; nothing is promised of
/// the value drawn.
#[verifier::external_body]
fn entropy_seed() -> u64 {
    rand::random::<u64>()
}

/// Plans one simulation run with a base seed drawn from ambient entropy,
/// for callers that do not need a reproducible run.  The split of trials
/// over workers is pinned exactly as by `plan_simulation`; only which seeds
/// come out is left open, and they are still pairwise distinct.
pub fn plan_simulation_entropy(trial_count: usize, worker_count: usize) -> (r: Result<
    SimulationPlan,
    StackError,
>)
    ensures
        r is Ok <==> trial_count >= 1,
        r matches Err(e) ==> e == StackError::InvalidArgument,
        r matches Ok(p) ==> (exists|s: u64|
            plan_matches(p, trial_count as int, worker_count as int, s)),
        r matches Ok(p) ==> p.wf(),
        r matches Ok(p) ==> p.total() == trial_count as int,
{
    let seed: u64 = entropy_seed();
    let r = plan_simulation(trial_count, worker_count, seed);
    proof {
        if r is Ok {
            let p = r->Ok_0;
            assert(plan_matches(p, trial_count as int, worker_count as int, seed));
        }
    }
    r
}

} // verus!
