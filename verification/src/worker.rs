//! One logical worker of the batch search: its configuration, its seed and its stop flag.

use crate::batch::{run_batch, run_batch_returns};
use crate::config::{
    config_parsed, parse_config, result_view, ConfigError, ConfigErrorView, ConfigView,
    MinerConfig, RawConfig, RawConfigView,
};
use crate::protocol::{found_views, reports_have_widths, FoundResult, FoundResultView};
use vstd::prelude::*;
use vstd::string::*;

verus! {

/// The state of one worker. A worker is created uninitialized, initialized with a textual
/// configuration, and then runs batch after batch until it is told to stop.
pub struct WorkerState {
    config: Option<MinerConfig>,
    seed: u64,
    worker_id: u32,
    stop: bool,
}

/// What a worker's state holds.
pub struct WorkerView {
    pub config: Option<ConfigView>,
    pub seed: u64,
    pub worker_id: u32,
    pub stop: bool,
}

/// What one batch call hands back.
#[derive(Debug, Clone, PartialEq, Eq)]
pub struct BatchResult {
    pub found: Vec<FoundResult>,
    pub attempts: u32,
}

/// What a batch call's result says.
pub struct BatchResultView {
    pub found: Seq<FoundResultView>,
    pub attempts: u32,
}

impl View for BatchResult {
    type V = BatchResultView;

    open spec fn view(&self) -> BatchResultView {
        BatchResultView { found: found_views(self.found@), attempts: self.attempts }
    }
}

/// A batch was asked of a worker that was never initialized.
#[derive(Debug, Clone, Copy, PartialEq, Eq)]
pub struct UninitializedWorkerError;

impl View for UninitializedWorkerError {
    type V = UninitializedWorkerError;

    open spec fn view(&self) -> UninitializedWorkerError {
        *self
    }
}

impl UninitializedWorkerError {
    /// The text of this failure.
    pub fn message(&self) -> (text: String)
        ensures
            text@ == "Worker not initialized"@,
    {
        String::from_str("Worker not initialized")
    }
}

impl View for WorkerState {
    type V = WorkerView;

    closed spec fn view(&self) -> WorkerView {
        WorkerView {
            config: match self.config {
                Some(config) => Some(config@),
                None => None,
            },
            seed: self.seed,
            worker_id: self.worker_id,
            stop: self.stop,
        }
    }
}

impl WorkerState {
    #[verifier::type_invariant]
    spec fn holds_valid_config(self) -> bool {
        self.config matches Some(config) ==> config.wf()
    }

    /// A worker that has no configuration yet.
    pub fn new() -> (state: WorkerState)
        ensures
            state@ == (WorkerView { config: None, seed: 0, worker_id: 0, stop: false }),
    {
        WorkerState { config: None, seed: 0, worker_id: 0, stop: false }
    }
}

/// What initializing does to a worker.
///
/// With a valid configuration the worker holds it, together with the given seed and id, and
/// is not stopped. With any other the call fails with the validation's refusal, and the worker
/// stays as it was.
pub open spec fn init_call(
    before: WorkerView,
    config: RawConfigView,
    seed: u32,
    worker_id: u32,
    after: WorkerView,
    done: Result<(), ConfigErrorView>,
) -> bool {
    match config_parsed(config) {
        Ok(parsed) => {
            &&& done is Ok
            &&& after == WorkerView {
                config: Some(parsed),
                seed: seed as u64,
                worker_id,
                stop: false,
            }
        },
        Err(refusal) => done == Err::<(), ConfigErrorView>(refusal) && after == before,
    }
}

/// What a batch call does to a worker and what it hands back.
///
/// A stopped worker hands back nothing and zero attempts, and stays as it is. A worker
/// without configuration fails, and stays as it is. Otherwise the batch is run with the
/// worker's seed and id, and the seed moves on by one, wrapping at 2^64.
pub open spec fn batch_call(
    before: WorkerView,
    batch_size: u32,
    after: WorkerView,
    handed: Result<BatchResultView, UninitializedWorkerError>,
) -> bool {
    if before.stop {
        after == before && handed == Ok::<BatchResultView, UninitializedWorkerError>(
            BatchResultView { found: Seq::empty(), attempts: 0 },
        )
    } else {
        match before.config {
            None => after == before && handed is Err,
            Some(config) => {
                &&& after == WorkerView {
                    seed: ((before.seed + 1) % 0x1_0000_0000_0000_0000) as u64,
                    ..before
                }
                &&& handed matches Ok(result)
                &&& run_batch_returns(
                    config,
                    before.seed,
                    before.worker_id,
                    batch_size,
                    (result.found, result.attempts),
                )
            },
        }
    }
}

/// Initializes a worker from a textual configuration: see [`init_call`].
pub fn init_worker(state: &mut WorkerState, config: RawConfig, seed: u32, worker_id: u32) -> (done:
    Result<(), ConfigError>)
    ensures
        init_call(old(state)@, config@, seed, worker_id, final(state)@, result_view(done)),
{
    match parse_config(config) {
        Ok(parsed) => {
            *state = WorkerState { config: Some(parsed), seed: seed as u64, worker_id, stop: false };
            Ok(())
        },
        Err(e) => Err(e),
    }
}

/// Sets or clears the stop flag. A set flag takes effect at the next batch call.
pub fn set_stop(state: &mut WorkerState, flag: bool)
    ensures
        final(state)@ == (WorkerView { stop: flag, ..old(state)@ }),
{
    proof {
        use_type_invariant(&*state);
    }
    state.stop = flag;
}

/// Runs the worker's next batch: see [`batch_call`].
///
/// Fails only on a worker that is neither stopped nor initialized.
pub fn run_batch_wasm(state: &mut WorkerState, batch_size: u32) -> (handed: Result<
    BatchResult,
    UninitializedWorkerError,
>)
    ensures
        batch_call(old(state)@, batch_size, final(state)@, result_view(handed)),
        handed matches Ok(result) ==> reports_have_widths(result@.found),
{
    proof {
        use_type_invariant(&*state);
    }
    if state.stop {
        let found: Vec<FoundResult> = Vec::new();
        assert(found_views(found@) =~= Seq::<FoundResultView>::empty());
        return Ok(BatchResult { found, attempts: 0 });
    }
    match &state.config {
        None => Err(UninitializedWorkerError),
        Some(config) => {
            let (found, attempts) = run_batch(config, state.seed, state.worker_id, batch_size);
            state.seed = state.seed.wrapping_add(1);
            Ok(BatchResult { found, attempts })
        },
    }
}

} // verus!
