//! The batch search: a bounded, reproducible run over consecutive nonces.

use crate::config::{ConfigView, MinerConfig};
use crate::protocol::{
    candidate_found, check_candidate, found_views, reports_have_widths, FoundResult,
    FoundResultView,
};
use rand::{Rng, SeedableRng};
use rand_chacha::ChaCha8Rng;
use vstd::prelude::*;

verus! {

/// The first two draws of a ChaCha8 generator seeded with `seed` through `seed_from_u64`: four
/// bytes, then a 64-bit number.
pub uninterp spec fn chacha8_draw(seed: u64) -> (Seq<u8>, u64);

/// The seed of a worker's stream for one batch: the batch seed XOR the worker id.
pub open spec fn stream_seed(seed: u64, worker_id: u32) -> u64 {
    seed ^ (worker_id as u64)
}

/// The nonce of the candidate at `index` of a batch: the starting nonce plus the index,
/// modulo 2^64.
pub open spec fn nonce_at(start_nonce: u64, index: nat) -> u64 {
    ((start_nonce + index) % 0x1_0000_0000_0000_0000) as u64
}

/// The reports of the first `count` candidates of a batch, in the order of their nonces: every
/// candidate that matches is reported once, and none else.
pub open spec fn batch_found(
    config: ConfigView,
    segment: Seq<u8>,
    start_nonce: u64,
    count: nat,
) -> Seq<FoundResultView>
    decreases count,
{
    if count == 0 {
        Seq::empty()
    } else {
        let before = batch_found(config, segment, start_nonce, (count - 1) as nat);
        match candidate_found(config, segment, nonce_at(start_nonce, (count - 1) as nat)) {
            Some(report) => before.push(report),
            None => before,
        }
    }
}

/// What a batch returns: the reports of its candidates, drawn from the worker's stream, and
/// the batch size as the number of attempts.
pub open spec fn run_batch_returns(
    config: ConfigView,
    seed: u64,
    worker_id: u32,
    batch_size: u32,
    returned: (Seq<FoundResultView>, u32),
) -> bool {
    let draw = chacha8_draw(stream_seed(seed, worker_id));
    &&& returned.0 == batch_found(config, draw.0, draw.1, batch_size as nat)
    &&& returned.1 == batch_size
}

/// `ChaCha8Rng::seed_from_u64` of `rand_chacha`, then `Rng::gen` of `rand` twice on the new
/// generator: for four bytes, then for a `u64`.
///
/// Trusted: what is drawn depends on the seed alone.
#[verifier::external_body]
pub(crate) fn seeded_draw(seed: u64) -> (draw: ([u8; 4], u64))
    ensures
        draw.0@ == chacha8_draw(seed).0,
        draw.1 == chacha8_draw(seed).1,
{
    let mut rng = ChaCha8Rng::seed_from_u64(seed);
    let salt: [u8; 4] = rng.gen();
    let start_nonce: u64 = rng.gen();
    (salt, start_nonce)
}

/// Examines `batch_size` candidates with consecutive nonces from `start_nonce` on, wrapping
/// at 2^64, and reports every match. Never stops early.
pub fn search_batch(
    config: &MinerConfig,
    segment: &[u8; 4],
    start_nonce: u64,
    batch_size: u32,
) -> (found: Vec<FoundResult>)
    requires
        config.wf(),
    ensures
        found_views(found@) == batch_found(config@, segment@, start_nonce, batch_size as nat),
        reports_have_widths(found_views(found@)),
{
    let mut found: Vec<FoundResult> = Vec::new();
    let mut i: u32 = 0;
    while i < batch_size
        invariant
            i <= batch_size,
            found_views(found@) == batch_found(config@, segment@, start_nonce, i as nat),
            reports_have_widths(found_views(found@)),
        decreases batch_size - i,
    {
        let nonce = start_nonce.wrapping_add(i as u64);
        match check_candidate(
            &config.factory,
            &config.caller,
            &config.codehash,
            config.pattern.as_slice(),
            segment,
            nonce,
        ) {
            Some(report) => found.push(report),
            None => {},
        }
        i += 1;
    }
    found
}

/// Runs one batch for one worker.
///
/// The stream is seeded with `seed ^ worker_id` and yields the salt segment and the starting
/// nonce; the whole batch is then examined. The second component is the number of attempts,
/// always `batch_size`.
pub fn run_batch(config: &MinerConfig, seed: u64, worker_id: u32, batch_size: u32) -> (returned: (
    Vec<FoundResult>,
    u32,
))
    requires
        config.wf(),
    ensures
        run_batch_returns(
            config@,
            seed,
            worker_id,
            batch_size,
            (found_views(returned.0@), returned.1),
        ),
        returned.1 == batch_size,
        batch_size == 0 ==> returned.0@.len() == 0,
        chacha8_draw(stream_seed(seed, worker_id)).0.len() == 4,
        reports_have_widths(found_views(returned.0@)),
{
    let (segment, start_nonce) = seeded_draw(seed ^ (worker_id as u64));
    let found = search_batch(config, &segment, start_nonce, batch_size);
    assert(found_views(found@).len() == found@.len());
    (found, batch_size)
}

/// Determinism: two runs with the same configuration, seed, worker id and batch size return
/// the same reports and the same number of attempts.
pub proof fn lemma_run_batch_deterministic(
    config: ConfigView,
    seed: u64,
    worker_id: u32,
    batch_size: u32,
    first: (Seq<FoundResultView>, u32),
    second: (Seq<FoundResultView>, u32),
)
    requires
        run_batch_returns(config, seed, worker_id, batch_size, first),
        run_batch_returns(config, seed, worker_id, batch_size, second),
    ensures
        first == second,
{
}

/// Attempts accounting: a batch reports its size as the number of attempts, and an empty batch
/// reports nothing.
pub proof fn lemma_attempts_are_batch_size(
    config: ConfigView,
    seed: u64,
    worker_id: u32,
    batch_size: u32,
    returned: (Seq<FoundResultView>, u32),
)
    requires
        run_batch_returns(config, seed, worker_id, batch_size, returned),
    ensures
        returned.1 == batch_size,
        batch_size == 0 ==> returned == (Seq::<FoundResultView>::empty(), 0u32),
        returned.0.len() <= batch_size,
{
    let draw = chacha8_draw(stream_seed(seed, worker_id));
    lemma_batch_found_len(config, draw.0, draw.1, batch_size as nat);
}

/// A batch reports at most one match per candidate.
pub proof fn lemma_batch_found_len(config: ConfigView, segment: Seq<u8>, start_nonce: u64, count: nat)
    ensures
        batch_found(config, segment, start_nonce, count).len() <= count,
    decreases count,
{
    if count > 0 {
        lemma_batch_found_len(config, segment, start_nonce, (count - 1) as nat);
    }
}

/// Isolation: under one seed, two different worker ids seed two different streams.
pub proof fn lemma_worker_streams_distinct(seed: u64, first_worker: u32, second_worker: u32)
    requires
        first_worker != second_worker,
    ensures
        stream_seed(seed, first_worker) != stream_seed(seed, second_worker),
{
    assert(first_worker != second_worker ==> seed ^ (first_worker as u64) != seed ^ (
    second_worker as u64)) by (bit_vector);
}

} // verus!
